//! Disk provisioning: the on-disk layout convention and the plans for
//! creating and removing copy-on-write disks.
//!
//! Path derivation is pure: each VM owns one directory under the storage
//! pool root holding a single root disk. The external disk-image tool is
//! driven by a command the application executes; this module pins down the
//! exact command line.

use vstd::prelude::*;

use crate::error::VmError;
use crate::strs::dec_digits;
use crate::strs::u64_to_dec;

verus! {

/// The per-VM directory under the storage pool root.
pub open spec fn spec_vm_disk_dir(storage_pool: Seq<char>, vm_name: Seq<char>) -> Seq<char> {
    storage_pool + "/"@ + vm_name
}

/// The root disk file inside the per-VM directory.
pub open spec fn spec_root_disk_path(storage_pool: Seq<char>, vm_name: Seq<char>) -> Seq<char> {
    spec_vm_disk_dir(storage_pool, vm_name) + "/root.qcow2"@
}

/// Join a directory and an entry name with a path separator.
pub fn join_path(dir: &str, name: &str) -> (r: String)
    ensures
        r@ == dir@ + "/"@ + name@,
{
    let mut s = String::from_str(dir);
    s.append("/");
    s.append(name);
    s
}

/// Derive the per-VM disk directory.
pub fn get_vm_disk_dir(storage_pool: &str, vm_name: &str) -> (r: String)
    ensures
        r@ == spec_vm_disk_dir(storage_pool@, vm_name@),
{
    join_path(storage_pool, vm_name)
}

/// Derive the root disk path of a VM.
pub fn get_root_disk_path(storage_pool: &str, vm_name: &str) -> (r: String)
    ensures
        r@ == spec_root_disk_path(storage_pool@, vm_name@),
{
    let mut s = get_vm_disk_dir(storage_pool, vm_name);
    s.append("/root.qcow2");
    proof {
        assert(s@ =~= spec_root_disk_path(storage_pool@, vm_name@));
    }
    s
}

/// A command for an external tool: the program and its arguments, in order.
pub struct ToolCommand {
    pub program: String,
    pub args: Vec<String>,
}

/// The disk-image tool invocation that layers a copy-on-write disk of
/// `size_gb` GiB over a raw base image.
pub fn create_cow_disk_command(base_image: &str, target_disk: &str, size_gb: u64) -> (cmd:
    ToolCommand)
    ensures
        cmd.program@ == "qemu-img"@,
        cmd.args@.len() == 9,
        cmd.args@[0]@ == "create"@,
        cmd.args@[1]@ == "-f"@,
        cmd.args@[2]@ == "qcow2"@,
        cmd.args@[3]@ == "-b"@,
        cmd.args@[4]@ == base_image@,
        cmd.args@[5]@ == "-F"@,
        cmd.args@[6]@ == "raw"@,
        cmd.args@[7]@ == target_disk@,
        cmd.args@[8]@ == dec_digits(size_gb as nat) + "G"@,
{
    let mut size = u64_to_dec(size_gb);
    size.append("G");
    let mut args: Vec<String> = Vec::new();
    args.push(String::from_str("create"));
    args.push(String::from_str("-f"));
    args.push(String::from_str("qcow2"));
    args.push(String::from_str("-b"));
    args.push(String::from_str(base_image));
    args.push(String::from_str("-F"));
    args.push(String::from_str("raw"));
    args.push(String::from_str(target_disk));
    args.push(size);
    ToolCommand { program: String::from_str("qemu-img"), args }
}

/// The disk-tool failure carried back to the caller, keeping the tool's
/// captured error text.
pub fn disk_tool_failure(stderr: &str) -> (e: VmError)
    ensures
        e is DiskTool,
        e->DiskTool_detail@ == stderr@,
{
    VmError::DiskTool { detail: String::from_str(stderr) }
}

/// The decision inside the idempotent disk removal: the file is removed
/// exactly when it exists, and an absent file is a no-op success, never an
/// error. The application performs the removal when this returns true and
/// reports success without touching the filesystem when it returns false.
pub fn delete_disk_removes_file(disk_exists: bool) -> (remove: bool)
    ensures
        remove == disk_exists,
{
    disk_exists
}

} // verus!
