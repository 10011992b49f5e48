use rcloud::config::{AppConfig, ServerConfig, VmDefaults};
use rcloud::error::VmError;
use rcloud::http::{
    create_vm_reply, destroy_vm_reply, get_vm_reply, health_response, list_images_reply,
    list_vms_reply, start_vm_reply, stop_vm_reply, system_status_response, vm_response_of,
};
use rcloud::manager::VmInfo;
use rcloud::metrics::{request_labels, vm_operation_labels};

#[test]
fn test_health_check() {
    let (code, body) = health_response();
    assert_eq!(code, 200);
    assert_eq!(body.status, "healthy");
    assert_eq!(body.version, "0.1.0");
}

#[test]
fn test_system_status() {
    let config = AppConfig {
        server: ServerConfig { bind_address: "127.0.0.1:8765".to_string(), workers: 4 },
        kdevops_root: "/root/kdevops".to_string(),
        libvirt_uri: "qemu:///system".to_string(),
        storage_pool_path: "/pool".to_string(),
        base_images_dir: "/imgs".to_string(),
        network_bridge: "virbr0".to_string(),
        ssh_user: None,
        ssh_pubkey_file: None,
        vm_defaults: VmDefaults {
            disk_format: "raw".to_string(),
            disk_driver: "virtio".to_string(),
        },
    };
    let (code, body) = system_status_response(&config);
    assert_eq!(code, 200);
    assert_eq!(body.status, "operational");
    assert_eq!(body.version, "0.1.0");
    assert_eq!(body.libvirt_uri, "qemu:///system");
    assert_eq!(body.storage_pool_path, "/pool");
    assert_eq!(body.base_images_dir, "/imgs");
    assert_eq!(body.network_bridge, "virbr0");
}

#[test]
fn test_create_vm_reply_created() {
    let (code, body) = create_vm_reply("test1".to_string(), Ok("uuid-123".to_string()));
    assert_eq!(code, 201);
    let body = body.unwrap();
    assert_eq!(body.id, "uuid-123");
    assert_eq!(body.name, "test1");
    assert_eq!(body.state, "creating");
}

#[test]
fn test_create_vm_reply_image_not_found() {
    let e = VmError::ImageNotFound { detail: "nonexistent.raw".to_string() };
    let (code, body) = create_vm_reply("test1".to_string(), Err(e));
    assert_eq!(code, 500);
    assert_eq!(
        body.unwrap_err(),
        "Failed to create VM: Base image not found: nonexistent.raw"
    );
}

#[test]
fn test_get_vm_reply_found() {
    let info = VmInfo::from_parts(
        "uuid-1".to_string(),
        "test1".to_string(),
        true,
        2,
        2048 * 1024,
        Some("192.168.122.100".to_string()),
    );
    let (code, body) = get_vm_reply(Ok(info));
    assert_eq!(code, 200);
    let body = body.unwrap();
    assert_eq!(body.id, "uuid-1");
    assert_eq!(body.state, "running");
    assert_eq!(body.vcpus, 2);
    assert_eq!(body.memory_mb, 2048);
    assert_eq!(body.ip_address, Some("192.168.122.100".to_string()));
}

#[test]
fn test_get_vm_reply_miss_is_not_found() {
    let e = VmError::NotFound { detail: "no domain with matching name 'ghost'".to_string() };
    let (code, body) = get_vm_reply(Err(e));
    assert_eq!(code, 404);
    assert_eq!(body.unwrap_err(), "VM not found: no domain with matching name 'ghost'");
}

#[test]
fn test_get_vm_reply_other_failures_are_internal_errors() {
    let e = VmError::Connection { detail: "libvirtd is down".to_string() };
    let (code, body) = get_vm_reply(Err(e));
    assert_eq!(code, 500);
    assert_eq!(
        body.unwrap_err(),
        "Failed to get VM: Failed to connect to libvirt: libvirtd is down"
    );
    let e = VmError::Io { detail: "introspection failed".to_string() };
    let (code, body) = get_vm_reply(Err(e));
    assert_eq!(code, 500);
    assert_eq!(body.unwrap_err(), "Failed to get VM: I/O error: introspection failed");
}

#[test]
fn test_list_vms_reply() {
    let a = VmInfo::from_parts("u1".to_string(), "a".to_string(), false, 1, 1024 * 1024, None);
    let b = VmInfo::from_parts("u2".to_string(), "b".to_string(), false, 2, 2048 * 1024, None);
    let (code, body) = list_vms_reply(Ok(vec![a, b]));
    assert_eq!(code, 200);
    let body = body.unwrap();
    assert_eq!(body.vms.len(), 2);
    assert_eq!(body.vms[0].id, "u1");
    assert_eq!(body.vms[1].id, "u2");
    assert_eq!(body.vms[1].memory_mb, 2048);
}

#[test]
fn test_list_vms_reply_failure() {
    let e = VmError::Connection { detail: "libvirtd is down".to_string() };
    let (code, body) = list_vms_reply(Err(e));
    assert_eq!(code, 500);
    assert_eq!(
        body.unwrap_err(),
        "Failed to list VMs: Failed to connect to libvirt: libvirtd is down"
    );
}

#[test]
fn test_lifecycle_replies() {
    assert_eq!(start_vm_reply(Ok(())), (200, Ok("started".to_string())));
    assert_eq!(stop_vm_reply(Ok(())), (200, Ok("stopped".to_string())));
    assert_eq!(destroy_vm_reply(Ok(())), (200, Ok("destroyed".to_string())));
    let (code, body) = start_vm_reply(Err(VmError::NoAddressFound));
    assert_eq!(code, 500);
    assert!(body.is_err());
}

#[test]
fn test_list_images_reply() {
    let (code, body) = list_images_reply(Ok(vec!["a.raw".to_string(), "b.raw".to_string()]));
    assert_eq!(code, 200);
    let body = body.unwrap();
    assert_eq!(body.images.len(), 2);
    assert_eq!(body.images[0].name, "a.raw");
    assert_eq!(body.images[1].name, "b.raw");
}

#[test]
fn test_vm_response_of_copies_fields() {
    let info = VmInfo::from_parts("u".to_string(), "n".to_string(), false, 4, 4096 * 1024, None);
    let r = vm_response_of(info);
    assert_eq!(r.id, "u");
    assert_eq!(r.name, "n");
    assert_eq!(r.state, "stopped");
    assert_eq!(r.vcpus, 4);
    assert_eq!(r.memory_mb, 4096);
    assert_eq!(r.ip_address, None);
}

#[test]
fn test_error_messages() {
    assert_eq!(
        VmError::DiskTool { detail: "boom".to_string() }.message(),
        "qemu-img failed: boom"
    );
    assert_eq!(VmError::NoAddressFound.message(), "No IP address found for domain");
    assert!(VmError::NotFound { detail: "x".to_string() }.is_not_found());
    assert!(!VmError::NoAddressFound.is_not_found());
}

#[test]
fn test_metric_labels() {
    let l = request_labels("GET", "/api/v1/vms", "200");
    assert_eq!(l.method, "GET");
    assert_eq!(l.endpoint, "/api/v1/vms");
    assert_eq!(l.status, "200");
    let l = vm_operation_labels("create", "success");
    assert_eq!(l.method, "VM");
    assert_eq!(l.endpoint, "create");
    assert_eq!(l.status, "success");
}
