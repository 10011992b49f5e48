use rcloud::config::{AppConfig, ServerConfig, VmDefaults};
use rcloud::customize::KeySource;
use rcloud::error::VmError;
use rcloud::manager::{CreateFailure, VmAction, VmInfo, VmManager, VmSpec};

fn test_config() -> AppConfig {
    AppConfig {
        server: ServerConfig { bind_address: "127.0.0.1:8765".to_string(), workers: 4 },
        kdevops_root: "/root/kdevops".to_string(),
        libvirt_uri: "qemu:///system".to_string(),
        storage_pool_path: "/pool".to_string(),
        base_images_dir: "/imgs".to_string(),
        network_bridge: "virbr0".to_string(),
        ssh_user: Some("admin".to_string()),
        ssh_pubkey_file: Some("/root/.ssh/id_ed25519.pub".to_string()),
        vm_defaults: VmDefaults { disk_format: "raw".to_string(), disk_driver: "virtio".to_string() },
    }
}

fn test_spec() -> VmSpec {
    VmSpec {
        name: "test1".to_string(),
        vcpus: 2,
        memory_mb: 2048,
        base_image: "debian-nocloud.raw".to_string(),
        root_disk_gb: 10,
        ssh_user: None,
        ssh_public_key: None,
    }
}

#[test]
fn test_create_vm_plan_stages() {
    let manager = VmManager::new(test_config());
    let plan = manager.create_vm_plan(&test_spec());
    assert_eq!(plan.len(), 5);

    match &plan[0].action {
        VmAction::CheckBaseImage { path } => assert_eq!(path, "/imgs/debian-nocloud.raw"),
        _ => panic!("stage 0 must check the base image"),
    }
    assert!(plan[0].compensation.is_empty());
    assert!(matches!(plan[0].failure, CreateFailure::ImageMissing));

    match &plan[1].action {
        VmAction::CreateCowDisk { base_image_path, vm_dir, disk_path, size_gb } => {
            assert_eq!(base_image_path, "/imgs/debian-nocloud.raw");
            assert_eq!(vm_dir, "/pool/test1");
            assert_eq!(disk_path, "/pool/test1/root.qcow2");
            assert_eq!(*size_gb, 10);
        },
        _ => panic!("stage 1 must create the disk"),
    }
    assert_eq!(plan[1].compensation.len(), 2);
    match &plan[1].compensation[0] {
        VmAction::DeleteDisk { disk_path } => assert_eq!(disk_path, "/pool/test1/root.qcow2"),
        _ => panic!("the disk stage is compensated by deleting the disk"),
    }
    match &plan[1].compensation[1] {
        VmAction::RemoveVmDir { vm_dir } => assert_eq!(vm_dir, "/pool/test1"),
        _ => panic!("the disk stage is compensated by removing the directory"),
    }

    match &plan[2].action {
        VmAction::CustomizeDisk { disk_path, plan: customize } => {
            assert_eq!(disk_path, "/pool/test1/root.qcow2");
            let customize = customize.as_ref().unwrap();
            assert_eq!(customize.user, "admin");
            match &customize.key {
                KeySource::KeyFile { path } => assert_eq!(path, "/root/.ssh/id_ed25519.pub"),
                KeySource::Inline { .. } => panic!("the configured key file applies"),
            }
        },
        _ => panic!("stage 2 must customize the disk"),
    }
    assert!(plan[2].compensation.is_empty());

    match &plan[3].action {
        VmAction::DefineDomain { xml } => {
            assert!(xml.contains("<name>test1</name>"));
            assert!(xml.contains("<memory unit='MiB'>2048</memory>"));
            assert!(xml.contains("<vcpu placement='static'>2</vcpu>"));
            assert!(xml.contains("<os firmware='efi'>"));
            assert!(xml.contains("<smm state='on'/>"));
            assert!(xml.contains("<source file='/pool/test1/root.qcow2'/>"));
            assert!(xml.contains("<source network='virbr0'/>"));
        },
        _ => panic!("stage 3 must define the domain"),
    }
    assert_eq!(plan[3].compensation.len(), 1);
    assert!(matches!(plan[3].compensation[0], VmAction::UndefineDomain));

    assert!(matches!(plan[4].action, VmAction::StartDomain));
    assert!(plan[4].compensation.is_empty());
    assert!(matches!(plan[4].failure, CreateFailure::DomainStart));
}

#[test]
fn test_create_vm_plan_missing_image_has_no_cleanup() {
    let manager = VmManager::new(test_config());
    let mut spec = test_spec();
    spec.base_image = "nonexistent.raw".to_string();
    let plan = manager.create_vm_plan(&spec);
    match &plan[0].action {
        VmAction::CheckBaseImage { path } => assert_eq!(path, "/imgs/nonexistent.raw"),
        _ => panic!("stage 0 must check the base image"),
    }
    assert!(plan[0].compensation.is_empty());
    let e = manager.create_failure_error(
        &plan[0].failure,
        "nonexistent.raw".to_string(),
    );
    assert!(matches!(e, VmError::ImageNotFound { .. }));
}

#[test]
fn test_create_failure_errors_name_their_stage() {
    let manager = VmManager::new(test_config());
    let cases = vec![
        (CreateFailure::DiskCreation, "qemu-img said no"),
        (CreateFailure::Customization, "virt-customize said no"),
        (CreateFailure::DomainDefinition, "libvirt said no"),
        (CreateFailure::DomainStart, "kvm said no"),
    ];
    for (failure, cause) in cases {
        let e = manager.create_failure_error(&failure, cause.to_string());
        let ok = match (&failure, &e) {
            (CreateFailure::DiskCreation, VmError::DiskCreation { detail }) => detail == cause,
            (CreateFailure::Customization, VmError::Customization { detail }) => detail == cause,
            (CreateFailure::DomainDefinition, VmError::DomainDefinition { detail }) => {
                detail == cause
            },
            (CreateFailure::DomainStart, VmError::DomainStart { detail }) => detail == cause,
            _ => false,
        };
        assert!(ok);
    }
}

fn info(id: &str, name: &str) -> VmInfo {
    VmInfo::from_parts(id.to_string(), name.to_string(), true, 2, 2048 * 1024, None)
}

#[test]
fn test_list_vms_skips_failed_probes() {
    let manager = VmManager::new(test_config());
    let probed = vec![Some(info("u1", "a")), None, Some(info("u2", "b")), None];
    let vms = manager.list_vms(probed);
    assert_eq!(vms.len(), 2);
    assert_eq!(vms[0].id, "u1");
    assert_eq!(vms[1].id, "u2");
}

#[test]
fn test_list_vms_empty() {
    let manager = VmManager::new(test_config());
    assert!(manager.list_vms(vec![]).is_empty());
    assert!(manager.list_vms(vec![None, None]).is_empty());
}

#[test]
fn test_vm_info_from_parts_running() {
    let i = VmInfo::from_parts(
        "uuid-1".to_string(),
        "test1".to_string(),
        true,
        2,
        2048 * 1024,
        Some("192.168.122.100".to_string()),
    );
    assert_eq!(i.state, "running");
    assert_eq!(i.vcpus, 2);
    assert_eq!(i.memory_mb, 2048);
    assert_eq!(i.ip_address, Some("192.168.122.100".to_string()));
}

#[test]
fn test_vm_info_from_parts_stopped_drops_address() {
    let i = VmInfo::from_parts(
        "uuid-1".to_string(),
        "test1".to_string(),
        false,
        2,
        1024 * 1024,
        Some("192.168.122.100".to_string()),
    );
    assert_eq!(i.state, "stopped");
    assert_eq!(i.memory_mb, 1024);
    assert_eq!(i.ip_address, None);
}

#[test]
fn test_destroy_vm_plan_active() {
    let manager = VmManager::new(test_config());
    let acts = manager.destroy_vm_plan("test1", true);
    assert_eq!(acts.len(), 4);
    assert!(matches!(acts[0], VmAction::ForceStopDomain));
    assert!(matches!(acts[1], VmAction::UndefineDomain));
    match &acts[2] {
        VmAction::DeleteDisk { disk_path } => assert_eq!(disk_path, "/pool/test1/root.qcow2"),
        _ => panic!("the disk is deleted after undefining"),
    }
    match &acts[3] {
        VmAction::RemoveVmDir { vm_dir } => assert_eq!(vm_dir, "/pool/test1"),
        _ => panic!("the directory is removed last"),
    }
}

#[test]
fn test_destroy_vm_plan_stopped() {
    let manager = VmManager::new(test_config());
    let acts = manager.destroy_vm_plan("test1", false);
    assert_eq!(acts.len(), 3);
    assert!(matches!(acts[0], VmAction::UndefineDomain));
}

#[test]
fn test_domifaddr_command() {
    let manager = VmManager::new(test_config());
    let cmd = manager.domifaddr_command("test1");
    assert_eq!(cmd.program, "sudo");
    let args: Vec<&str> = cmd.args.iter().map(|a| a.as_str()).collect();
    assert_eq!(args, vec!["virsh", "domifaddr", "test1"]);
}

#[test]
fn test_parse_domifaddr_output_finds_first_ipv4() {
    let manager = VmManager::new(test_config());
    let output = " Name       MAC address          Protocol     Address\n\
-------------------------------------------------------------------------------\n\
 vnet0      52:54:00:11:22:33    ipv6         fe80::1/64\n\
 vnet0      52:54:00:11:22:33    ipv4         192.168.122.100/24\n\
 vnet1      52:54:00:44:55:66    ipv4         10.0.0.7/8\n";
    let ip = manager.parse_domifaddr_output(output).unwrap();
    assert_eq!(ip, "192.168.122.100");
}

#[test]
fn test_parse_domifaddr_output_without_prefix() {
    let manager = VmManager::new(test_config());
    let output = "h\n-\n v 52:54:00:00:00:01 ipv4 10.1.2.3\n";
    assert_eq!(manager.parse_domifaddr_output(output).unwrap(), "10.1.2.3");
}

#[test]
fn test_parse_domifaddr_output_no_address() {
    let manager = VmManager::new(test_config());
    let output = " Name       MAC address          Protocol     Address\n\
-------------------------------------------------------------------------------\n";
    let e = manager.parse_domifaddr_output(output).unwrap_err();
    assert!(matches!(e, VmError::NoAddressFound));
}

#[test]
fn test_parse_domifaddr_output_header_rows_are_skipped() {
    let manager = VmManager::new(test_config());
    let output = "a b ipv4 1.2.3.4/8\nc d ipv4 5.6.7.8/8\n e f ipv4 9.9.9.9/9\n";
    assert_eq!(manager.parse_domifaddr_output(output).unwrap(), "9.9.9.9");
}

#[test]
fn test_list_base_images_sorted() {
    let manager = VmManager::new(test_config());
    let images = manager.list_base_images(vec![
        "debian-nocloud.raw".to_string(),
        "alpine.raw".to_string(),
        "fedora-uefi.raw".to_string(),
        "alpine.raw".to_string(),
    ]);
    assert_eq!(
        images,
        vec![
            "alpine.raw".to_string(),
            "alpine.raw".to_string(),
            "debian-nocloud.raw".to_string(),
            "fedora-uefi.raw".to_string(),
        ]
    );
}

#[test]
fn test_vm_manager_new_keeps_config() {
    let manager = VmManager::new(test_config());
    assert_eq!(manager.config.storage_pool_path, "/pool");
    assert_eq!(manager.config.libvirt_uri, "qemu:///system");
}

#[test]
fn test_rollback_for_failure_lists() {
    let manager = VmManager::new(test_config());

    let plan = manager.create_vm_plan(&test_spec());
    let acts = manager.rollback_for_failure(plan, 0);
    assert!(acts.is_empty());

    let plan = manager.create_vm_plan(&test_spec());
    let acts = manager.rollback_for_failure(plan, 2);
    assert_eq!(acts.len(), 2);
    assert!(matches!(&acts[0], VmAction::DeleteDisk { .. }));
    assert!(matches!(&acts[1], VmAction::RemoveVmDir { .. }));

    let plan = manager.create_vm_plan(&test_spec());
    let acts = manager.rollback_for_failure(plan, 4);
    assert_eq!(acts.len(), 3);
    assert!(matches!(&acts[0], VmAction::UndefineDomain));
    match &acts[1] {
        VmAction::DeleteDisk { disk_path } => assert_eq!(disk_path, "/pool/test1/root.qcow2"),
        _ => panic!("the disk is deleted after undefining"),
    }
    match &acts[2] {
        VmAction::RemoveVmDir { vm_dir } => assert_eq!(vm_dir, "/pool/test1"),
        _ => panic!("the directory is removed last"),
    }
}
