//! Domain descriptor generation.
//!
//! The descriptor is built as one deterministic string: a fixed skeleton with
//! the VM name, vcpu count, memory size, disk path and network name spliced
//! in, and a firmware section selected by the UEFI requirement. The exact
//! output is pinned down by [`vm_xml`], so two calls on the same inputs give
//! byte-identical documents.

use vstd::prelude::*;

use crate::strs::{
    lacks_trigram, lemma_contains_trans, lemma_lacks_trigram_no_contains,
    contains_at, contains_seq, dec_digits, lemma_contains_concat_left,
    lemma_contains_concat_right, lemma_dec_digits_are_digits, lemma_no_contains_all_digits,
    lemma_no_contains_concat_left_anchor, lemma_no_contains_concat_right_anchor, str_contains,
    u64_to_dec,
};

verus! {

pub open spec fn seg_name_open() -> Seq<char> {
    "<domain type='kvm'>\n  <name>"@
}

pub open spec fn seg_mem_open() -> Seq<char> {
    "</name>\n  <memory unit='MiB'>"@
}

pub open spec fn seg_vcpu_open() -> Seq<char> {
    "</memory>\n  <vcpu placement='static'>"@
}

pub open spec fn seg_vcpu_close() -> Seq<char> {
    "</vcpu>\n"@
}

pub open spec fn os_section(requires_uefi: bool) -> Seq<char> {
    if requires_uefi {
        "  <os firmware='efi'>\n    <type arch='x86_64' machine='q35'>hvm</type>\n    <boot dev='hd'/>\n  </os>"@
    } else {
        "  <os>\n    <type arch='x86_64' machine='q35'>hvm</type>\n    <boot dev='hd'/>\n  </os>"@
    }
}

pub open spec fn seg_features_open() -> Seq<char> {
    "\n  <features>\n    <acpi/>\n    <apic/>\n"@
}

pub open spec fn smm_feature(requires_uefi: bool) -> Seq<char> {
    if requires_uefi {
        "    <smm state='on'/>"@
    } else {
        ""@
    }
}

pub open spec fn seg_disk_open() -> Seq<char> {
    "\n  </features>\n  <cpu mode='host-passthrough'/>\n  <clock offset='localtime'/>\n  <on_poweroff>destroy</on_poweroff>\n  <on_reboot>restart</on_reboot>\n  <on_crash>destroy</on_crash>\n  <devices>\n    <emulator>/usr/bin/qemu-system-x86_64</emulator>\n    <disk type='file' device='disk'>\n      <driver name='qemu' type='qcow2' cache='none' io='native'/>\n      <source file='"@
}

pub open spec fn seg_net_open() -> Seq<char> {
    "'/>\n      <target dev='vda' bus='virtio'/>\n    </disk>\n    <interface type='network'>\n      <source network='"@
}

pub open spec fn seg_tail() -> Seq<char> {
    "'/>\n      <model type='virtio'/>\n    </interface>\n    <serial type='pty'>\n      <target type='isa-serial' port='0'/>\n    </serial>\n    <console type='pty'>\n      <target type='serial' port='0'/>\n    </console>\n    <memballoon model='virtio'/>\n    <rng model='virtio'>\n      <backend model='random'>/dev/urandom</backend>\n    </rng>\n  </devices>\n</domain>"@
}

/// The complete domain descriptor for the given inputs.
pub open spec fn vm_xml(
    name: Seq<char>,
    vcpus: nat,
    memory_mb: nat,
    disk_path: Seq<char>,
    network_name: Seq<char>,
    requires_uefi: bool,
) -> Seq<char> {
    seg_name_open() + name + seg_mem_open() + dec_digits(memory_mb) + seg_vcpu_open()
        + dec_digits(vcpus) + seg_vcpu_close() + os_section(requires_uefi) + seg_features_open()
        + smm_feature(requires_uefi) + seg_disk_open() + disk_path + seg_net_open() + network_name
        + seg_tail()
}

/// Build the domain descriptor document.
pub fn generate_simple_vm_xml(
    vm_name: &str,
    vcpus: u32,
    memory_mb: u64,
    disk_path: &str,
    network_name: &str,
    requires_uefi: bool,
) -> (xml: String)
    ensures
        xml@ == vm_xml(
            vm_name@,
            vcpus as nat,
            memory_mb as nat,
            disk_path@,
            network_name@,
            requires_uefi,
        ),
{
    let mut out = String::new();
    out.append("<domain type='kvm'>\n  <name>");
    out.append(vm_name);
    out.append("</name>\n  <memory unit='MiB'>");
    let mem = u64_to_dec(memory_mb);
    out.append(mem.as_str());
    out.append("</memory>\n  <vcpu placement='static'>");
    let vc = u64_to_dec(vcpus as u64);
    out.append(vc.as_str());
    out.append("</vcpu>\n");
    if requires_uefi {
        out.append(
            "  <os firmware='efi'>\n    <type arch='x86_64' machine='q35'>hvm</type>\n    <boot dev='hd'/>\n  </os>",
        );
    } else {
        out.append(
            "  <os>\n    <type arch='x86_64' machine='q35'>hvm</type>\n    <boot dev='hd'/>\n  </os>",
        );
    }
    out.append("\n  <features>\n    <acpi/>\n    <apic/>\n");
    if requires_uefi {
        out.append("    <smm state='on'/>");
    } else {
        out.append("");
    }
    out.append(
        "\n  </features>\n  <cpu mode='host-passthrough'/>\n  <clock offset='localtime'/>\n  <on_poweroff>destroy</on_poweroff>\n  <on_reboot>restart</on_reboot>\n  <on_crash>destroy</on_crash>\n  <devices>\n    <emulator>/usr/bin/qemu-system-x86_64</emulator>\n    <disk type='file' device='disk'>\n      <driver name='qemu' type='qcow2' cache='none' io='native'/>\n      <source file='",
    );
    out.append(disk_path);
    out.append(
        "'/>\n      <target dev='vda' bus='virtio'/>\n    </disk>\n    <interface type='network'>\n      <source network='",
    );
    out.append(network_name);
    out.append(
        "'/>\n      <model type='virtio'/>\n    </interface>\n    <serial type='pty'>\n      <target type='isa-serial' port='0'/>\n    </serial>\n    <console type='pty'>\n      <target type='serial' port='0'/>\n    </console>\n    <memballoon model='virtio'/>\n    <rng model='virtio'>\n      <backend model='random'>/dev/urandom</backend>\n    </rng>\n  </devices>\n</domain>",
    );
    proof {
        assert(out@ =~= vm_xml(
            vm_name@,
            vcpus as nat,
            memory_mb as nat,
            disk_path@,
            network_name@,
            requires_uefi,
        ));
    }
    out
}

/// The attribute that selects EFI firmware in a descriptor.
pub open spec fn efi_marker() -> Seq<char> {
    "<os firmware='efi'>"@
}

/// The feature element that switches SMM on.
pub open spec fn smm_on_marker() -> Seq<char> {
    "<smm state='on'/>"@
}

/// A descriptor built with the UEFI requirement carries the EFI firmware
/// marker and the SMM-on feature, whatever the other inputs are.
pub proof fn lemma_uefi_xml_has_markers(
    name: Seq<char>,
    vcpus: nat,
    memory_mb: nat,
    disk_path: Seq<char>,
    network_name: Seq<char>,
)
    ensures
        contains_seq(vm_xml(name, vcpus, memory_mb, disk_path, network_name, true), efi_marker()),
        contains_seq(
            vm_xml(name, vcpus, memory_mb, disk_path, network_name, true),
            smm_on_marker(),
        ),
{
    reveal_strlit(
        "  <os firmware='efi'>\n    <type arch='x86_64' machine='q35'>hvm</type>\n    <boot dev='hd'/>\n  </os>",
    );
    reveal_strlit("<os firmware='efi'>");
    reveal_strlit("    <smm state='on'/>");
    reveal_strlit("<smm state='on'/>");
    assert(os_section(true).subrange(2, 21) =~= efi_marker());
    assert(contains_at(os_section(true), efi_marker(), 2));
    assert(smm_feature(true).subrange(4, 21) =~= smm_on_marker());
    assert(contains_at(smm_feature(true), smm_on_marker(), 4));

    let p7 = seg_name_open() + name + seg_mem_open() + dec_digits(memory_mb) + seg_vcpu_open()
        + dec_digits(vcpus) + seg_vcpu_close();
    let p8 = p7 + os_section(true);
    let p9 = p8 + seg_features_open();
    let p10 = p9 + smm_feature(true);
    let p11 = p10 + seg_disk_open();
    let p12 = p11 + disk_path;
    let p13 = p12 + seg_net_open();
    let p14 = p13 + network_name;
    let whole = p14 + seg_tail();
    assert(whole == vm_xml(name, vcpus, memory_mb, disk_path, network_name, true));

    lemma_contains_concat_right(p7, os_section(true), efi_marker());
    lemma_contains_concat_left(p8, seg_features_open(), efi_marker());
    lemma_contains_concat_left(p9, smm_feature(true), efi_marker());
    lemma_contains_concat_left(p10, seg_disk_open(), efi_marker());
    lemma_contains_concat_left(p11, disk_path, efi_marker());
    lemma_contains_concat_left(p12, seg_net_open(), efi_marker());
    lemma_contains_concat_left(p13, network_name, efi_marker());
    lemma_contains_concat_left(p14, seg_tail(), efi_marker());

    lemma_contains_concat_right(p9, smm_feature(true), smm_on_marker());
    lemma_contains_concat_left(p10, seg_disk_open(), smm_on_marker());
    lemma_contains_concat_left(p11, disk_path, smm_on_marker());
    lemma_contains_concat_left(p12, seg_net_open(), smm_on_marker());
    lemma_contains_concat_left(p13, network_name, smm_on_marker());
    lemma_contains_concat_left(p14, seg_tail(), smm_on_marker());
}

/// A needle that no input holds, that starts outside the digits, and whose
/// characters avoid the skeleton's boundary characters cannot occur in a
/// legacy-BIOS descriptor at all.
proof fn lemma_bios_xml_avoids(
    name: Seq<char>,
    vcpus: nat,
    memory_mb: nat,
    disk_path: Seq<char>,
    network_name: Seq<char>,
    n: Seq<char>,
)
    requires
        n.len() >= 3,
        !('0' <= n[0] <= '9'),
        forall|j: int| 0 <= j < n.len() ==> n[j] != '\'' && n[j] != '\n',
        forall|j: int| 0 <= j < n.len() - 1 ==> n[j] != '>',
        forall|j: int| 1 <= j < n.len() ==> n[j] != '<',
        !contains_seq(name, n),
        !contains_seq(disk_path, n),
        !contains_seq(network_name, n),
        !contains_seq(seg_name_open(), n),
        !contains_seq(seg_mem_open(), n),
        !contains_seq(seg_vcpu_open(), n),
        !contains_seq(seg_vcpu_close(), n),
        !contains_seq(os_section(false), n),
        !contains_seq(seg_features_open(), n),
        !contains_seq(seg_disk_open(), n),
        !contains_seq(seg_net_open(), n),
        !contains_seq(seg_tail(), n),
    ensures
        !contains_seq(vm_xml(name, vcpus, memory_mb, disk_path, network_name, false), n),
{
    reveal_strlit("<domain type='kvm'>\n  <name>");
    reveal_strlit("</name>\n  <memory unit='MiB'>");
    reveal_strlit("</memory>\n  <vcpu placement='static'>");
    reveal_strlit("</vcpu>\n");
    reveal_strlit(
        "  <os>\n    <type arch='x86_64' machine='q35'>hvm</type>\n    <boot dev='hd'/>\n  </os>",
    );
    reveal_strlit("\n  <features>\n    <acpi/>\n    <apic/>\n");
    reveal_strlit("");
    reveal_strlit(
        "\n  </features>\n  <cpu mode='host-passthrough'/>\n  <clock offset='localtime'/>\n  <on_poweroff>destroy</on_poweroff>\n  <on_reboot>restart</on_reboot>\n  <on_crash>destroy</on_crash>\n  <devices>\n    <emulator>/usr/bin/qemu-system-x86_64</emulator>\n    <disk type='file' device='disk'>\n      <driver name='qemu' type='qcow2' cache='none' io='native'/>\n      <source file='",
    );
    reveal_strlit(
        "'/>\n      <target dev='vda' bus='virtio'/>\n    </disk>\n    <interface type='network'>\n      <source network='",
    );
    reveal_strlit(
        "'/>\n      <model type='virtio'/>\n    </interface>\n    <serial type='pty'>\n      <target type='isa-serial' port='0'/>\n    </serial>\n    <console type='pty'>\n      <target type='serial' port='0'/>\n    </console>\n    <memballoon model='virtio'/>\n    <rng model='virtio'>\n      <backend model='random'>/dev/urandom</backend>\n    </rng>\n  </devices>\n</domain>",
    );

    lemma_dec_digits_are_digits(memory_mb);
    lemma_dec_digits_are_digits(vcpus);
    lemma_no_contains_all_digits(dec_digits(memory_mb), n);
    lemma_no_contains_all_digits(dec_digits(vcpus), n);

    let p1 = seg_name_open();
    let p2 = p1 + name;
    assert(p1[p1.len() - 1] == '>');
    lemma_no_contains_concat_left_anchor(p1, name, n);

    let p3 = p2 + seg_mem_open();
    assert(seg_mem_open()[0] == '<');
    lemma_no_contains_concat_right_anchor(p2, seg_mem_open(), n);

    let p4 = p3 + dec_digits(memory_mb);
    assert(p3[p3.len() - 1] == '>');
    lemma_no_contains_concat_left_anchor(p3, dec_digits(memory_mb), n);

    let p5 = p4 + seg_vcpu_open();
    assert(seg_vcpu_open()[0] == '<');
    lemma_no_contains_concat_right_anchor(p4, seg_vcpu_open(), n);

    let p6 = p5 + dec_digits(vcpus);
    assert(p5[p5.len() - 1] == '>');
    lemma_no_contains_concat_left_anchor(p5, dec_digits(vcpus), n);

    let p7 = p6 + seg_vcpu_close();
    assert(seg_vcpu_close()[0] == '<');
    lemma_no_contains_concat_right_anchor(p6, seg_vcpu_close(), n);

    let p8 = p7 + os_section(false);
    assert(p7[p7.len() - 1] == '\n');
    lemma_no_contains_concat_left_anchor(p7, os_section(false), n);

    let p9 = p8 + seg_features_open();
    assert(p8[p8.len() - 1] == '>');
    lemma_no_contains_concat_left_anchor(p8, seg_features_open(), n);

    let p9s = p9 + smm_feature(false);
    assert(p9s =~= p9);

    let p10 = p9s + seg_disk_open();
    assert(p9s[p9s.len() - 1] == '\n');
    lemma_no_contains_concat_left_anchor(p9s, seg_disk_open(), n);

    let p11 = p10 + disk_path;
    assert(p10[p10.len() - 1] == '\'');
    lemma_no_contains_concat_left_anchor(p10, disk_path, n);

    let p12 = p11 + seg_net_open();
    assert(seg_net_open()[0] == '\'');
    lemma_no_contains_concat_right_anchor(p11, seg_net_open(), n);

    let p13 = p12 + network_name;
    assert(p12[p12.len() - 1] == '\'');
    lemma_no_contains_concat_left_anchor(p12, network_name, n);

    let p14 = p13 + seg_tail();
    assert(seg_tail()[0] == '\'');
    lemma_no_contains_concat_right_anchor(p13, seg_tail(), n);

    assert(vm_xml(name, vcpus, memory_mb, disk_path, network_name, false) == p14);
}

/// A descriptor built without the UEFI requirement mentions neither the EFI
/// firmware attribute nor the SMM feature, as long as the name, disk path
/// and network name do not carry those markers themselves.
pub proof fn lemma_bios_xml_has_no_uefi_markers(
    name: Seq<char>,
    vcpus: nat,
    memory_mb: nat,
    disk_path: Seq<char>,
    network_name: Seq<char>,
)
    requires
        !contains_seq(name, "firmware"@),
        !contains_seq(name, "<smm"@),
        !contains_seq(disk_path, "firmware"@),
        !contains_seq(disk_path, "<smm"@),
        !contains_seq(network_name, "firmware"@),
        !contains_seq(network_name, "<smm"@),
    ensures
        !contains_seq(
            vm_xml(name, vcpus, memory_mb, disk_path, network_name, false),
            "firmware"@,
        ),
        !contains_seq(vm_xml(name, vcpus, memory_mb, disk_path, network_name, false), "<smm"@),
        !contains_seq(
            vm_xml(name, vcpus, memory_mb, disk_path, network_name, false),
            efi_marker(),
        ),
        !contains_seq(
            vm_xml(name, vcpus, memory_mb, disk_path, network_name, false),
            smm_on_marker(),
        ),
{
    reveal_strlit("<domain type='kvm'>\n  <name>");
    reveal_strlit("</name>\n  <memory unit='MiB'>");
    reveal_strlit("</memory>\n  <vcpu placement='static'>");
    reveal_strlit("</vcpu>\n");
    reveal_strlit(
        "  <os>\n    <type arch='x86_64' machine='q35'>hvm</type>\n    <boot dev='hd'/>\n  </os>",
    );
    reveal_strlit("\n  <features>\n    <acpi/>\n    <apic/>\n");
    reveal_strlit(
        "\n  </features>\n  <cpu mode='host-passthrough'/>\n  <clock offset='localtime'/>\n  <on_poweroff>destroy</on_poweroff>\n  <on_reboot>restart</on_reboot>\n  <on_crash>destroy</on_crash>\n  <devices>\n    <emulator>/usr/bin/qemu-system-x86_64</emulator>\n    <disk type='file' device='disk'>\n      <driver name='qemu' type='qcow2' cache='none' io='native'/>\n      <source file='",
    );
    reveal_strlit(
        "'/>\n      <target dev='vda' bus='virtio'/>\n    </disk>\n    <interface type='network'>\n      <source network='",
    );
    reveal_strlit(
        "'/>\n      <model type='virtio'/>\n    </interface>\n    <serial type='pty'>\n      <target type='isa-serial' port='0'/>\n    </serial>\n    <console type='pty'>\n      <target type='serial' port='0'/>\n    </console>\n    <memballoon model='virtio'/>\n    <rng model='virtio'>\n      <backend model='random'>/dev/urandom</backend>\n    </rng>\n  </devices>\n</domain>",
    );
    reveal_strlit("firmware");
    reveal_strlit("<smm");
    reveal_strlit("<os firmware='efi'>");
    reveal_strlit("<smm state='on'/>");

    let nf = "firmware"@;
    assert(lacks_trigram(seg_name_open(), 'f', 'i', 'r'));
    lemma_lacks_trigram_no_contains(seg_name_open(), nf);
    assert(lacks_trigram(seg_mem_open(), 'f', 'i', 'r'));
    lemma_lacks_trigram_no_contains(seg_mem_open(), nf);
    assert(lacks_trigram(seg_vcpu_open(), 'f', 'i', 'r'));
    lemma_lacks_trigram_no_contains(seg_vcpu_open(), nf);
    assert(lacks_trigram(seg_vcpu_close(), 'f', 'i', 'r'));
    lemma_lacks_trigram_no_contains(seg_vcpu_close(), nf);
    assert(lacks_trigram(os_section(false), 'f', 'i', 'r'));
    lemma_lacks_trigram_no_contains(os_section(false), nf);
    assert(lacks_trigram(seg_features_open(), 'f', 'i', 'r'));
    lemma_lacks_trigram_no_contains(seg_features_open(), nf);
    assert(lacks_trigram(seg_disk_open(), 'f', 'i', 'r'));
    lemma_lacks_trigram_no_contains(seg_disk_open(), nf);
    assert(lacks_trigram(seg_net_open(), 'f', 'i', 'r'));
    lemma_lacks_trigram_no_contains(seg_net_open(), nf);
    assert(lacks_trigram(seg_tail(), 'f', 'i', 'r'));
    lemma_lacks_trigram_no_contains(seg_tail(), nf);
    lemma_bios_xml_avoids(name, vcpus, memory_mb, disk_path, network_name, nf);

    let ns = "<smm"@;
    assert(lacks_trigram(seg_name_open(), '<', 's', 'm'));
    lemma_lacks_trigram_no_contains(seg_name_open(), ns);
    assert(lacks_trigram(seg_mem_open(), '<', 's', 'm'));
    lemma_lacks_trigram_no_contains(seg_mem_open(), ns);
    assert(lacks_trigram(seg_vcpu_open(), '<', 's', 'm'));
    lemma_lacks_trigram_no_contains(seg_vcpu_open(), ns);
    assert(lacks_trigram(seg_vcpu_close(), '<', 's', 'm'));
    lemma_lacks_trigram_no_contains(seg_vcpu_close(), ns);
    assert(lacks_trigram(os_section(false), '<', 's', 'm'));
    lemma_lacks_trigram_no_contains(os_section(false), ns);
    assert(lacks_trigram(seg_features_open(), '<', 's', 'm'));
    lemma_lacks_trigram_no_contains(seg_features_open(), ns);
    assert(lacks_trigram(seg_disk_open(), '<', 's', 'm'));
    lemma_lacks_trigram_no_contains(seg_disk_open(), ns);
    assert(lacks_trigram(seg_net_open(), '<', 's', 'm'));
    lemma_lacks_trigram_no_contains(seg_net_open(), ns);
    assert(lacks_trigram(seg_tail(), '<', 's', 'm'));
    lemma_lacks_trigram_no_contains(seg_tail(), ns);
    lemma_bios_xml_avoids(name, vcpus, memory_mb, disk_path, network_name, ns);

    let xml = vm_xml(name, vcpus, memory_mb, disk_path, network_name, false);
    assert(efi_marker().subrange(4, 12) =~= nf);
    assert(contains_at(efi_marker(), nf, 4));
    if contains_seq(xml, efi_marker()) {
        lemma_contains_trans(xml, efi_marker(), nf);
    }
    assert(smm_on_marker().subrange(0, 4) =~= ns);
    assert(contains_at(smm_on_marker(), ns, 0));
    if contains_seq(xml, smm_on_marker()) {
        lemma_contains_trans(xml, smm_on_marker(), ns);
    }
}

/// The descriptor builder is a pure function: two descriptors built from
/// the same inputs are byte-identical.
pub proof fn lemma_vm_xml_deterministic(
    x1: Seq<char>,
    x2: Seq<char>,
    name: Seq<char>,
    vcpus: nat,
    memory_mb: nat,
    disk_path: Seq<char>,
    network_name: Seq<char>,
    requires_uefi: bool,
)
    requires
        x1 == vm_xml(name, vcpus, memory_mb, disk_path, network_name, requires_uefi),
        x2 == vm_xml(name, vcpus, memory_mb, disk_path, network_name, requires_uefi),
    ensures
        x1 == x2,
{
}

/// The values handed to the descriptor template.
pub struct VmXmlContext {
    pub hostname: String,
    pub libvirt_mem_mb: u64,
    pub libvirt_vcpus_count: u32,
    pub kdevops_storage_pool_path: String,
    pub guestfs_path: String,
    pub libvirt_session_public_network_dev: String,
    pub qemu_bin_path: String,
    pub guestfs_requires_uefi: bool,
    pub libvirt_host_passthrough: bool,
    pub libvirt_enable_gdb: bool,
}

impl VmXmlContext {
    /// A template context for one VM: host-passthrough CPU, the stock
    /// emulator, no debugger, legacy firmware.
    pub fn new(
        vm_name: &str,
        vcpus: u32,
        memory_mb: u64,
        storage_pool_path: &str,
        network_bridge: &str,
    ) -> (c: Self)
        ensures
            c.hostname@ == vm_name@,
            c.libvirt_mem_mb == memory_mb,
            c.libvirt_vcpus_count == vcpus,
            c.kdevops_storage_pool_path@ == storage_pool_path@,
            c.guestfs_path@ == storage_pool_path@,
            c.libvirt_session_public_network_dev@ == network_bridge@,
            c.qemu_bin_path@ == "/usr/bin/qemu-system-x86_64"@,
            c.guestfs_requires_uefi == false,
            c.libvirt_host_passthrough == true,
            c.libvirt_enable_gdb == false,
    {
        VmXmlContext {
            hostname: String::from_str(vm_name),
            libvirt_mem_mb: memory_mb,
            libvirt_vcpus_count: vcpus,
            kdevops_storage_pool_path: String::from_str(storage_pool_path),
            guestfs_path: String::from_str(storage_pool_path),
            libvirt_session_public_network_dev: String::from_str(network_bridge),
            qemu_bin_path: String::from_str("/usr/bin/qemu-system-x86_64"),
            guestfs_requires_uefi: false,
            libvirt_host_passthrough: true,
            libvirt_enable_gdb: false,
        }
    }
}

/// Whether a base image's name calls for UEFI firmware.
pub open spec fn spec_image_requires_uefi(name: Seq<char>) -> bool {
    contains_seq(name, "nocloud"@) || contains_seq(name, "uefi"@) || contains_seq(name, "cloud"@)
}

/// The firmware-mode heuristic: cloud-style images boot with UEFI.
pub fn image_requires_uefi(base_image: &str) -> (r: bool)
    ensures
        r == spec_image_requires_uefi(base_image@),
{
    str_contains(base_image, "nocloud") || str_contains(base_image, "uefi") || str_contains(
        base_image,
        "cloud",
    )
}

} // verus!
