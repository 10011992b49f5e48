use rcloud::disk::{
    create_cow_disk_command, delete_disk_removes_file, disk_tool_failure, get_root_disk_path,
    get_vm_disk_dir,
};
use rcloud::error::VmError;

#[test]
fn test_get_vm_disk_dir() {
    assert_eq!(get_vm_disk_dir("/xfs1/libvirt/kdevops", "test1"), "/xfs1/libvirt/kdevops/test1");
}

#[test]
fn test_get_root_disk_path() {
    assert_eq!(
        get_root_disk_path("/xfs1/libvirt/kdevops", "test1"),
        "/xfs1/libvirt/kdevops/test1/root.qcow2"
    );
}

#[test]
fn test_create_cow_disk_command() {
    let cmd = create_cow_disk_command(
        "/imgs/debian-nocloud.raw",
        "/pool/test1/root.qcow2",
        10,
    );
    assert_eq!(cmd.program, "qemu-img");
    let args: Vec<&str> = cmd.args.iter().map(|a| a.as_str()).collect();
    assert_eq!(
        args,
        vec![
            "create",
            "-f",
            "qcow2",
            "-b",
            "/imgs/debian-nocloud.raw",
            "-F",
            "raw",
            "/pool/test1/root.qcow2",
            "10G",
        ]
    );
}

#[test]
fn test_delete_disk_absent_is_noop() {
    assert!(!delete_disk_removes_file(false));
}

#[test]
fn test_delete_disk_present_removes() {
    assert!(delete_disk_removes_file(true));
}

#[test]
fn test_disk_tool_failure_keeps_error_text() {
    let e = disk_tool_failure("no such base image");
    match &e {
        VmError::DiskTool { detail } => assert_eq!(detail, "no such base image"),
        _ => panic!("expected a disk tool failure"),
    }
    assert_eq!(e.message(), "qemu-img failed: no such base image");
}
