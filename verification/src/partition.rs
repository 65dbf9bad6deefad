//! Writable partitions that a caller asks the service to set up.
//!
//! The service decides how large the partition is to be and what its first bytes
//! are; the caller empties the file and writes them.

use crate::error::ErrorKind;
use crate::service::{check_manage_access, has_permission, CallingIdentity, Permission};
use vstd::prelude::*;
use vstd::string::{is_ascii, is_ascii_spec_bytes, StringSliceAdditionalSpecFns};

verus! {

/// The magic at the start of a partition that holds the secrets of a machine: 18
/// bytes of ASCII text.
pub const ANDROID_VM_INSTANCE_MAGIC: &'static str = "Android-VM-instanc";

/// The version of the format of such a partition.
pub const ANDROID_VM_INSTANCE_VERSION: u16 = 1;

/// What a writable partition is for.
#[derive(Clone, Copy, Debug, PartialEq, Eq, Structural)]
pub enum PartitionType {
    /// A partition without any content of its own.
    Raw,
    /// A partition that holds the secrets of a machine.
    AndroidVmInstance,
}

/// How a writable partition is to be set up.
#[derive(Clone, Debug, PartialEq, Eq)]
pub struct WritablePartition {
    /// The size of the partition in bytes.
    pub size: u64,
    /// The bytes that are written at its start.
    pub header: Vec<u8>,
}

/// The two bytes of a 16-bit number, the low one first.
pub open spec fn le_bytes_u16(value: u16) -> Seq<u8> {
    seq![(value % 256) as u8, (value / 256) as u8]
}

/// The first bytes of a partition that holds the secrets of a machine: the 18 bytes
/// of the magic from offset 0 on, then the version with its low byte first.
pub open spec fn android_vm_instance_header() -> Seq<u8> {
    ANDROID_VM_INSTANCE_MAGIC.spec_bytes() + le_bytes_u16(ANDROID_VM_INSTANCE_VERSION)
}

/// The header of an instance partition is 20 bytes long: the magic fills the bytes 0
/// to 17, one byte for each of its characters, and the version 1 stands in the bytes
/// 18 and 19 as `0x01 0x00`.
pub proof fn lemma_instance_header_layout()
    ensures
        ANDROID_VM_INSTANCE_MAGIC@.len() == 18,
        android_vm_instance_header().len() == 20,
        forall|i: int|
            0 <= i < 18 ==> #[trigger] android_vm_instance_header()[i]
                == ANDROID_VM_INSTANCE_MAGIC@[i] as u8,
        android_vm_instance_header()[18] == 0x01,
        android_vm_instance_header()[19] == 0x00,
{
    broadcast use is_ascii_spec_bytes;

    reveal_strlit("Android-VM-instanc");
    assert(is_ascii(ANDROID_VM_INSTANCE_MAGIC));
}

/// The first bytes of a partition of the given kind.
pub open spec fn partition_header(partition_type: PartitionType) -> Seq<u8> {
    match partition_type {
        PartitionType::Raw => Seq::empty(),
        PartitionType::AndroidVmInstance => android_vm_instance_header(),
    }
}

/// Writes the start of a partition that holds the secrets of a machine to `part`:
/// the 20 bytes of the header, and nothing else.
pub fn format_as_android_vm_instance(part: &mut Vec<u8>)
    ensures
        final(part)@ == old(part)@ + android_vm_instance_header(),
        final(part)@.len() == old(part)@.len() + 20,
{
    proof {
        lemma_instance_header_layout();
    }
    let magic = ANDROID_VM_INSTANCE_MAGIC.as_bytes_vec();
    let mut i: usize = 0;
    while i < magic.len()
        invariant
            i <= magic@.len(),
            part@ == old(part)@ + magic@.take(i as int),
        decreases magic@.len() - i,
    {
        part.push(magic[i]);
        proof {
            assert(magic@.take(i + 1) =~= magic@.take(i as int).push(magic@[i as int]));
        }
        i += 1;
    }
    let version: u16 = ANDROID_VM_INSTANCE_VERSION;
    part.push((version % 256) as u8);
    part.push((version / 256) as u8);
    proof {
        assert(magic@.take(i as int) =~= magic@);
        assert(part@ =~= old(part)@ + android_vm_instance_header());
    }
}

/// Decides how a writable partition is set up.
///
/// The caller has to be allowed to manage machines, and the size has to be
/// positive. The partition is emptied and gets the first bytes of its kind.
pub fn initialize_writable_partition(
    caller: &CallingIdentity,
    size: i64,
    partition_type: PartitionType,
) -> (r: Result<WritablePartition, ErrorKind>)
    ensures
        match r {
            Ok(partition) => has_permission(*caller, Permission::ManageVirtualMachine) && size > 0
                && partition.size == size && partition.header@ == partition_header(
                partition_type,
            ),
            Err(e) => e == (if !has_permission(*caller, Permission::ManageVirtualMachine) {
                ErrorKind::PermissionDenied
            } else {
                ErrorKind::IllegalArgument
            }) && (!has_permission(*caller, Permission::ManageVirtualMachine) || size <= 0),
        },
{
    match check_manage_access(caller) {
        Ok(()) => {},
        Err(e) => {
            return Err(e);
        },
    }
    if size <= 0 {
        return Err(ErrorKind::IllegalArgument);
    }
    let mut header: Vec<u8> = Vec::new();
    match partition_type {
        PartitionType::Raw => {},
        PartitionType::AndroidVmInstance => {
            format_as_android_vm_instance(&mut header);
        },
    }
    assert(header@ =~= partition_header(partition_type));
    Ok(WritablePartition { size: size as u64, header })
}

} // verus!
