use rcloud::xml::{generate_simple_vm_xml, image_requires_uefi, VmXmlContext};

#[test]
fn test_generate_simple_vm_xml_golden_uefi() {
    let xml = generate_simple_vm_xml(
        "test1",
        2,
        2048,
        "/pool/test1/root.qcow2",
        "virbr0",
        true,
    );
    let os_section = r#"  <os firmware='efi'>
    <type arch='x86_64' machine='q35'>hvm</type>
    <boot dev='hd'/>
  </os>"#;
    let firmware_feature = "    <smm state='on'/>";
    let expected = format!(
        r#"<domain type='kvm'>
  <name>{}</name>
  <memory unit='MiB'>{}</memory>
  <vcpu placement='static'>{}</vcpu>
{}
  <features>
    <acpi/>
    <apic/>
{}
  </features>
  <cpu mode='host-passthrough'/>
  <clock offset='localtime'/>
  <on_poweroff>destroy</on_poweroff>
  <on_reboot>restart</on_reboot>
  <on_crash>destroy</on_crash>
  <devices>
    <emulator>/usr/bin/qemu-system-x86_64</emulator>
    <disk type='file' device='disk'>
      <driver name='qemu' type='qcow2' cache='none' io='native'/>
      <source file='{}'/>
      <target dev='vda' bus='virtio'/>
    </disk>
    <interface type='network'>
      <source network='{}'/>
      <model type='virtio'/>
    </interface>
    <serial type='pty'>
      <target type='isa-serial' port='0'/>
    </serial>
    <console type='pty'>
      <target type='serial' port='0'/>
    </console>
    <memballoon model='virtio'/>
    <rng model='virtio'>
      <backend model='random'>/dev/urandom</backend>
    </rng>
  </devices>
</domain>"#,
        "test1", 2048, 2, os_section, firmware_feature, "/pool/test1/root.qcow2", "virbr0"
    );
    assert_eq!(xml, expected);
}

#[test]
fn test_generate_simple_vm_xml_golden_bios() {
    let xml = generate_simple_vm_xml("plain", 1, 512, "/pool/plain/root.qcow2", "default", false);
    let os_section = r#"  <os>
    <type arch='x86_64' machine='q35'>hvm</type>
    <boot dev='hd'/>
  </os>"#;
    let expected = format!(
        r#"<domain type='kvm'>
  <name>{}</name>
  <memory unit='MiB'>{}</memory>
  <vcpu placement='static'>{}</vcpu>
{}
  <features>
    <acpi/>
    <apic/>
{}
  </features>
  <cpu mode='host-passthrough'/>
  <clock offset='localtime'/>
  <on_poweroff>destroy</on_poweroff>
  <on_reboot>restart</on_reboot>
  <on_crash>destroy</on_crash>
  <devices>
    <emulator>/usr/bin/qemu-system-x86_64</emulator>
    <disk type='file' device='disk'>
      <driver name='qemu' type='qcow2' cache='none' io='native'/>
      <source file='{}'/>
      <target dev='vda' bus='virtio'/>
    </disk>
    <interface type='network'>
      <source network='{}'/>
      <model type='virtio'/>
    </interface>
    <serial type='pty'>
      <target type='isa-serial' port='0'/>
    </serial>
    <console type='pty'>
      <target type='serial' port='0'/>
    </console>
    <memballoon model='virtio'/>
    <rng model='virtio'>
      <backend model='random'>/dev/urandom</backend>
    </rng>
  </devices>
</domain>"#,
        "plain", 512, 1, os_section, "", "/pool/plain/root.qcow2", "default"
    );
    assert_eq!(xml, expected);
}

#[test]
fn test_vm_xml_is_deterministic() {
    let a = generate_simple_vm_xml("vm", 4, 4096, "/p/vm/root.qcow2", "virbr0", true);
    let b = generate_simple_vm_xml("vm", 4, 4096, "/p/vm/root.qcow2", "virbr0", true);
    assert_eq!(a, b);
}

#[test]
fn test_uefi_xml_carries_markers() {
    let xml = generate_simple_vm_xml("vm", 2, 2048, "/p/vm/root.qcow2", "virbr0", true);
    assert!(xml.contains("<os firmware='efi'>"));
    assert!(xml.contains("<smm state='on'/>"));
}

#[test]
fn test_bios_xml_carries_no_markers() {
    let xml = generate_simple_vm_xml("vm", 2, 2048, "/p/vm/root.qcow2", "virbr0", false);
    assert!(!xml.contains("firmware"));
    assert!(!xml.contains("<smm"));
}

#[test]
fn test_image_requires_uefi_heuristic() {
    assert!(image_requires_uefi("debian-nocloud.raw"));
    assert!(image_requires_uefi("fedora-uefi.img"));
    assert!(image_requires_uefi("ubuntu-cloud.raw"));
    assert!(image_requires_uefi("cloudy.raw"));
    assert!(!image_requires_uefi("debian-plain.raw"));
    assert!(!image_requires_uefi(""));
}

#[test]
fn test_vm_xml_context_new() {
    let c = VmXmlContext::new("node1", 8, 8192, "/xfs1/libvirt/kdevops", "virbr0");
    assert_eq!(c.hostname, "node1");
    assert_eq!(c.libvirt_mem_mb, 8192);
    assert_eq!(c.libvirt_vcpus_count, 8);
    assert_eq!(c.kdevops_storage_pool_path, "/xfs1/libvirt/kdevops");
    assert_eq!(c.guestfs_path, "/xfs1/libvirt/kdevops");
    assert_eq!(c.libvirt_session_public_network_dev, "virbr0");
    assert_eq!(c.qemu_bin_path, "/usr/bin/qemu-system-x86_64");
    assert!(!c.guestfs_requires_uefi);
    assert!(c.libvirt_host_passthrough);
    assert!(!c.libvirt_enable_gdb);
}
