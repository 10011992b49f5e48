//! The VM lifecycle orchestrator.
//!
//! Creating a VM is a staged pipeline — check the base image, create the
//! copy-on-write disk, customize it, define the domain, start it — in which
//! any failure must undo everything the earlier stages created. The
//! orchestrator produces that pipeline as data: an ordered list of stages,
//! each pairing a forward action with its compensating actions. The
//! application executes the stages in order and, on the first failure, runs
//! the compensations of the completed stages in reverse order, never letting
//! a cleanup failure mask the original error. Rollback completeness — every
//! resource acquired before the failure is released, in reverse order of
//! acquisition — is proved below.

use vstd::prelude::*;

use crate::config::AppConfig;
use crate::customize::{customize_plan_of, resolve_customization, CustomizePlan};
use crate::disk::{
    get_root_disk_path, get_vm_disk_dir, join_path, spec_root_disk_path, spec_vm_disk_dir,
};
use crate::error::VmError;
use crate::strs::{
    fields_of, find_pred, find_slash, lemma_find_pred_props, line_fields, slash_pred, spec_lines,
    split_lines,
};
use crate::xml::{generate_simple_vm_xml, image_requires_uefi, spec_image_requires_uefi, vm_xml};

verus! {

/// What a caller asks for when creating a VM.
#[derive(Debug, Clone)]
pub struct VmSpec {
    pub name: String,
    pub vcpus: u32,
    pub memory_mb: u64,
    pub base_image: String,
    pub root_disk_gb: u64,
    /// Optional SSH username (falls back to the configured one).
    pub ssh_user: Option<String>,
    /// Optional SSH public key content (falls back to the configured key
    /// file).
    pub ssh_public_key: Option<String>,
}

/// What a query reports about one VM, recomputed on every call.
#[derive(Debug, Clone)]
pub struct VmInfo {
    pub id: String,
    pub name: String,
    pub state: String,
    pub vcpus: u32,
    pub memory_mb: u64,
    pub ip_address: Option<String>,
}

impl VmInfo {
    /// Assemble the report from what the hypervisor said about a domain.
    /// The state is `running` exactly when the domain is active, memory is
    /// converted from KiB to MiB, and a discovered address is reported only
    /// for a running domain.
    pub fn from_parts(
        id: String,
        name: String,
        is_active: bool,
        vcpus: u32,
        memory_kib: u64,
        probed_ip: Option<String>,
    ) -> (info: VmInfo)
        ensures
            info.id == id,
            info.name == name,
            info.state@ == (if is_active {
                "running"@
            } else {
                "stopped"@
            }),
            info.vcpus == vcpus,
            info.memory_mb == memory_kib / 1024,
            info.ip_address == (if is_active {
                probed_ip
            } else {
                None::<String>
            }),
    {
        VmInfo {
            id,
            name,
            state: if is_active {
                String::from_str("running")
            } else {
                String::from_str("stopped")
            },
            vcpus,
            memory_mb: memory_kib / 1024,
            ip_address: if is_active {
                probed_ip
            } else {
                None
            },
        }
    }
}

/// One step the application performs against the outside world.
pub enum VmAction {
    /// Fail the pipeline if the base image file is absent.
    CheckBaseImage { path: String },
    /// Create the per-VM directory and lay a copy-on-write disk over the
    /// base image.
    CreateCowDisk { base_image_path: String, vm_dir: String, disk_path: String, size_gb: u64 },
    /// Customize the offline disk, or skip if nothing was resolved.
    CustomizeDisk { disk_path: String, plan: Option<CustomizePlan> },
    /// Define a domain from the descriptor.
    DefineDomain { xml: String },
    /// Start the defined domain.
    StartDomain,
    /// Forcefully stop a running domain.
    ForceStopDomain,
    /// Undefine the domain, removing its NVRAM store (safe for non-UEFI
    /// domains too).
    UndefineDomain,
    /// Remove the disk file if it exists.
    DeleteDisk { disk_path: String },
    /// Remove the per-VM directory if it exists (only succeeds when empty;
    /// failure is non-fatal noise).
    RemoveVmDir { vm_dir: String },
}

/// Which create stage failed, for wrapping the cause.
#[derive(Debug, Clone, Copy)]
pub enum CreateFailure {
    ImageMissing,
    DiskCreation,
    Customization,
    DomainDefinition,
    DomainStart,
}

/// One stage of the create pipeline: a forward action, the compensations
/// that undo it, and the error kind reported when it fails.
pub struct CreateStage {
    pub action: VmAction,
    /// Run, in order, when a later stage fails; stages are compensated in
    /// reverse order of completion.
    pub compensation: Vec<VmAction>,
    pub failure: CreateFailure,
}

/// The base image file inside the base-images directory.
pub open spec fn spec_base_image_path(base_images_dir: Seq<char>, image: Seq<char>) -> Seq<char> {
    base_images_dir + "/"@ + image
}

/// The exact create pipeline for a request: what each stage does, what
/// compensates it, and how its failure is reported.
pub open spec fn is_create_plan(plan: Seq<CreateStage>, config: AppConfig, req: VmSpec) -> bool {
    let base = spec_base_image_path(config.base_images_dir@, req.base_image@);
    let dir = spec_vm_disk_dir(config.storage_pool_path@, req.name@);
    let disk = spec_root_disk_path(config.storage_pool_path@, req.name@);
    let xml = vm_xml(
        req.name@,
        req.vcpus as nat,
        req.memory_mb as nat,
        disk,
        config.network_bridge@,
        spec_image_requires_uefi(req.base_image@),
    );
    &&& plan.len() == 5
    &&& plan[0].action matches VmAction::CheckBaseImage { path } && path@ == base
    &&& plan[0].compensation@.len() == 0
    &&& plan[0].failure is ImageMissing
    &&& plan[1].action matches VmAction::CreateCowDisk { base_image_path, vm_dir, disk_path, size_gb }
        && base_image_path@ == base && vm_dir@ == dir && disk_path@ == disk && size_gb
        == req.root_disk_gb
    &&& plan[1].compensation@.len() == 2
    &&& plan[1].compensation@[0] matches VmAction::DeleteDisk { disk_path } && disk_path@ == disk
    &&& plan[1].compensation@[1] matches VmAction::RemoveVmDir { vm_dir } && vm_dir@ == dir
    &&& plan[1].failure is DiskCreation
    &&& plan[2].action matches VmAction::CustomizeDisk { disk_path, plan: cp } && disk_path@ == disk
        && cp == customize_plan_of(
        req.ssh_user,
        config.ssh_user,
        req.ssh_public_key,
        config.ssh_pubkey_file,
    )
    &&& plan[2].compensation@.len() == 0
    &&& plan[2].failure is Customization
    &&& plan[3].action matches VmAction::DefineDomain { xml: x } && x@ == xml
    &&& plan[3].compensation@.len() == 1
    &&& plan[3].compensation@[0] is UndefineDomain
    &&& plan[3].failure is DomainDefinition
    &&& plan[4].action is StartDomain
    &&& plan[4].compensation@.len() == 0
    &&& plan[4].failure is DomainStart
}

/// The VM manager: the configured orchestrator.
pub struct VmManager {
    pub config: AppConfig,
}

impl VmManager {
    pub fn new(config: AppConfig) -> (m: Self)
        ensures
            m.config == config,
    {
        VmManager { config }
    }

    /// Lay out the create pipeline for a request.
    pub fn create_vm_plan(&self, req: &VmSpec) -> (plan: Vec<CreateStage>)
        ensures
            is_create_plan(plan@, self.config, *req),
    {
        let base = join_path(self.config.base_images_dir.as_str(), req.base_image.as_str());
        let dir = get_vm_disk_dir(self.config.storage_pool_path.as_str(), req.name.as_str());
        let disk = get_root_disk_path(self.config.storage_pool_path.as_str(), req.name.as_str());
        let uefi = image_requires_uefi(req.base_image.as_str());
        let xml = generate_simple_vm_xml(
            req.name.as_str(),
            req.vcpus,
            req.memory_mb,
            disk.as_str(),
            self.config.network_bridge.as_str(),
            uefi,
        );
        let customize = resolve_customization(
            clone_opt(&req.ssh_user),
            clone_opt(&self.config.ssh_user),
            clone_opt(&req.ssh_public_key),
            clone_opt(&self.config.ssh_pubkey_file),
        );

        let mut plan: Vec<CreateStage> = Vec::new();
        plan.push(
            CreateStage {
                action: VmAction::CheckBaseImage { path: base.clone() },
                compensation: Vec::new(),
                failure: CreateFailure::ImageMissing,
            },
        );
        let mut disk_compensation: Vec<VmAction> = Vec::new();
        disk_compensation.push(VmAction::DeleteDisk { disk_path: disk.clone() });
        disk_compensation.push(VmAction::RemoveVmDir { vm_dir: dir.clone() });
        plan.push(
            CreateStage {
                action: VmAction::CreateCowDisk {
                    base_image_path: base,
                    vm_dir: dir,
                    disk_path: disk.clone(),
                    size_gb: req.root_disk_gb,
                },
                compensation: disk_compensation,
                failure: CreateFailure::DiskCreation,
            },
        );
        plan.push(
            CreateStage {
                action: VmAction::CustomizeDisk { disk_path: disk, plan: customize },
                compensation: Vec::new(),
                failure: CreateFailure::Customization,
            },
        );
        let mut define_compensation: Vec<VmAction> = Vec::new();
        define_compensation.push(VmAction::UndefineDomain);
        plan.push(
            CreateStage {
                action: VmAction::DefineDomain { xml },
                compensation: define_compensation,
                failure: CreateFailure::DomainDefinition,
            },
        );
        plan.push(
            CreateStage {
                action: VmAction::StartDomain,
                compensation: Vec::new(),
                failure: CreateFailure::DomainStart,
            },
        );
        plan
    }

    /// The cleanup to run when stage `failed` of a create plan fails: the
    /// compensations of the completed stages, latest stage first, each
    /// stage's actions in their own order. This is exactly the sequence the
    /// rollback-completeness law speaks of, so the application runs the
    /// proved list rather than rebuilding it.
    pub fn rollback_for_failure(&self, plan: Vec<CreateStage>, failed: usize) -> (acts: Vec<
        VmAction,
    >)
        requires
            failed <= plan@.len(),
        ensures
            acts@ == rollback_actions(plan@, failed as int),
    {
        let ghost orig = plan@;
        let mut plan = plan;
        while plan.len() > failed
            invariant
                failed <= plan@.len(),
                plan@.len() <= orig.len(),
                plan@ == orig.take(plan@.len() as int),
            decreases plan@.len(),
        {
            let ghost before = plan@;
            plan.pop();
            proof {
                assert(before.subrange(0, before.len() - 1) =~= orig.take(before.len() - 1));
            }
        }
        let mut acts: Vec<VmAction> = Vec::new();
        proof {
            assert(acts@ + rollback_actions(orig, plan@.len() as int) =~= rollback_actions(
                orig,
                failed as int,
            ));
        }
        while plan.len() > 0
            invariant
                plan@.len() <= orig.len(),
                plan@ == orig.take(plan@.len() as int),
                acts@ + rollback_actions(orig, plan@.len() as int) == rollback_actions(
                    orig,
                    failed as int,
                ),
            decreases plan@.len(),
        {
            let ghost before = plan@;
            let stage = plan.pop();
            proof {
                assert(before.subrange(0, before.len() - 1) =~= orig.take(before.len() - 1));
                assert(before[before.len() - 1] == orig[before.len() - 1]);
                assert(rollback_actions(orig, before.len() as int) == orig[before.len()
                    - 1].compensation@ + rollback_actions(orig, before.len() - 1));
            }
            match stage {
                Some(stage) => {
                    let ghost acts_before = acts@;
                    let mut compensation = stage.compensation;
                    acts.append(&mut compensation);
                    proof {
                        assert(acts@ + rollback_actions(orig, plan@.len() as int)
                            =~= acts_before + rollback_actions(orig, plan@.len() as int + 1));
                    }
                },
                None => (),
            }
        }
        proof {
            assert(rollback_actions(orig, 0) == Seq::<VmAction>::empty());
            assert(acts@ =~= acts@ + rollback_actions(orig, 0));
        }
        acts
    }

    /// Wrap a stage's failure in the error that names the stage, keeping
    /// the cause.
    pub fn create_failure_error(&self, failure: &CreateFailure, cause: String) -> (e: VmError)
        ensures
            match failure {
                CreateFailure::ImageMissing => e matches VmError::ImageNotFound { detail }
                    && detail == cause,
                CreateFailure::DiskCreation => e matches VmError::DiskCreation { detail } && detail
                    == cause,
                CreateFailure::Customization => e matches VmError::Customization { detail }
                    && detail == cause,
                CreateFailure::DomainDefinition => e matches VmError::DomainDefinition { detail }
                    && detail == cause,
                CreateFailure::DomainStart => e matches VmError::DomainStart { detail } && detail
                    == cause,
            },
    {
        match failure {
            CreateFailure::ImageMissing => VmError::ImageNotFound { detail: cause },
            CreateFailure::DiskCreation => VmError::DiskCreation { detail: cause },
            CreateFailure::Customization => VmError::Customization { detail: cause },
            CreateFailure::DomainDefinition => VmError::DomainDefinition { detail: cause },
            CreateFailure::DomainStart => VmError::DomainStart { detail: cause },
        }
    }

    /// Gather the reports that could be computed, skipping every domain
    /// whose introspection failed: one bad domain never fails the listing.
    pub fn list_vms(&self, probed: Vec<Option<VmInfo>>) -> (vms: Vec<VmInfo>)
        ensures
            vms@ == present_infos(probed@),
    {
        let mut vms: Vec<VmInfo> = Vec::new();
        let mut probed = probed;
        let ghost all = probed@;
        proof {
            assert(vms@ + present_infos(probed@) =~= present_infos(all));
        }
        while probed.len() > 0
            invariant
                vms@ + present_infos(probed@) == present_infos(all),
            decreases probed.len(),
        {
            let ghost before = probed@;
            let item = probed.remove(0);
            proof {
                assert(before.remove(0) =~= before.skip(1));
            }
            match item {
                Some(info) => {
                    vms.push(info);
                },
                None => (),
            }
            proof {
                assert(vms@ + present_infos(probed@) =~= present_infos(all));
            }
        }
        proof {
            assert(vms@ =~= vms@ + present_infos(probed@));
        }
        vms
    }

    /// The image listing: the file names the application found in the
    /// base-images directory, sorted lexically, none added and none lost.
    pub fn list_base_images(&self, names: Vec<String>) -> (r: Vec<String>)
        ensures
            crate::strs::sorted_strings(r@),
            r@.to_multiset() == names@.to_multiset(),
    {
        crate::strs::sort_strings(names)
    }

    /// The privileged address-query command for a domain.
    pub fn domifaddr_command(&self, vm_name: &str) -> (cmd: crate::disk::ToolCommand)
        ensures
            cmd.program@ == "sudo"@,
            cmd.args@.len() == 3,
            cmd.args@[0]@ == "virsh"@,
            cmd.args@[1]@ == "domifaddr"@,
            cmd.args@[2]@ == vm_name@,
    {
        let mut args: Vec<String> = Vec::new();
        args.push(String::from_str("virsh"));
        args.push(String::from_str("domifaddr"));
        args.push(String::from_str(vm_name));
        crate::disk::ToolCommand { program: String::from_str("sudo"), args }
    }

    /// Pull the first IPv4 address out of the address-query output: skip
    /// the two header lines, take the first row whose protocol column is
    /// `ipv4`, and strip the prefix length from its address column. When no
    /// such row exists the domain has no discoverable address.
    pub fn parse_domifaddr_output(&self, output: &str) -> (r: Result<String, VmError>)
        ensures
            r is Ok <==> first_ipv4_row(spec_lines(output@), 2) < spec_lines(output@).len(),
            r is Ok ==> r->Ok_0@ == row_ip(
                spec_lines(output@)[first_ipv4_row(spec_lines(output@), 2)],
            ),
            r is Err ==> r->Err_0 is NoAddressFound,
    {
        let lines = split_lines(output);
        let ghost ls = spec_lines(output@);
        let mut i: usize = 2;
        if lines.len() < 2 {
            proof {
                lemma_first_ipv4_row_none(ls, 2);
            }
            return Err(VmError::NoAddressFound);
        }
        while i < lines.len()
            invariant
                ls == spec_lines(output@),
                lines@.len() == ls.len(),
                forall|k: int| 0 <= k < ls.len() ==> lines@[k]@ == ls[k],
                2 <= i <= ls.len(),
                forall|j: int| 2 <= j < i ==> !is_ipv4_row(ls[j]),
            decreases lines.len() - i,
        {
            let fields = fields_of(lines[i].as_str());
            if fields.len() >= 4 {
                let ipv4 = String::from_str("ipv4");
                if fields[2].eq(&ipv4) {
                    proof {
                        assert(is_ipv4_row(ls[i as int]));
                        lemma_first_ipv4_row_is(ls, 2, i as int);
                    }
                    let addr = fields[3].as_str();
                    let cut = find_slash(addr);
                    proof {
                        lemma_find_pred_props(addr@, slash_pred());
                        assert(addr@.take(cut as int) =~= addr@.subrange(0, cut as int));
                    }
                    let ip = String::from_str(addr.substring_char(0, cut));
                    return Ok(ip);
                }
            }
            proof {
                assert(!is_ipv4_row(ls[i as int]));
            }
            i = i + 1;
        }
        proof {
            lemma_first_ipv4_row_none(ls, 2);
        }
        Err(VmError::NoAddressFound)
    }

    /// The teardown sequence for a VM: stop it if it is running, undefine
    /// it with its NVRAM store, then remove its disk and directory.
    pub fn destroy_vm_plan(&self, vm_name: &str, is_active: bool) -> (acts: Vec<VmAction>)
        ensures
            acts@.len() == (if is_active {
                4int
            } else {
                3int
            }),
            is_active ==> acts@[0] is ForceStopDomain,
            acts@[acts@.len() - 3] is UndefineDomain,
            acts@[acts@.len() - 2] matches VmAction::DeleteDisk { disk_path } && disk_path@
                == spec_root_disk_path(self.config.storage_pool_path@, vm_name@),
            acts@[acts@.len() - 1] matches VmAction::RemoveVmDir { vm_dir } && vm_dir@
                == spec_vm_disk_dir(self.config.storage_pool_path@, vm_name@),
    {
        let mut acts: Vec<VmAction> = Vec::new();
        if is_active {
            acts.push(VmAction::ForceStopDomain);
        }
        acts.push(VmAction::UndefineDomain);
        acts.push(
            VmAction::DeleteDisk {
                disk_path: get_root_disk_path(self.config.storage_pool_path.as_str(), vm_name),
            },
        );
        acts.push(
            VmAction::RemoveVmDir {
                vm_dir: get_vm_disk_dir(self.config.storage_pool_path.as_str(), vm_name),
            },
        );
        acts
    }
}

/// A row of the address-query output that reports an IPv4 address: its
/// third whitespace-separated field is `ipv4`.
pub open spec fn is_ipv4_row(line: Seq<char>) -> bool {
    line_fields(line).len() >= 4 && line_fields(line)[2] == "ipv4"@
}

/// The address of an IPv4 row: its fourth field up to the prefix length.
pub open spec fn row_ip(line: Seq<char>) -> Seq<char> {
    let addr = line_fields(line)[3];
    addr.take(find_pred(addr, slash_pred()))
}

/// The first IPv4 row at or after `from`, or the number of lines if none
/// exists.
pub open spec fn first_ipv4_row(lines: Seq<Seq<char>>, from: int) -> int
    decreases lines.len() - from,
{
    if from < 0 || from >= lines.len() {
        lines.len() as int
    } else if is_ipv4_row(lines[from]) {
        from
    } else {
        first_ipv4_row(lines, from + 1)
    }
}

/// A scan that found its first IPv4 row pins `first_ipv4_row` down.
pub proof fn lemma_first_ipv4_row_is(lines: Seq<Seq<char>>, from: int, m: int)
    requires
        0 <= from <= m < lines.len(),
        forall|j: int| from <= j < m ==> !is_ipv4_row(lines[j]),
        is_ipv4_row(lines[m]),
    ensures
        first_ipv4_row(lines, from) == m,
    decreases m - from,
{
    if from < m {
        lemma_first_ipv4_row_is(lines, from + 1, m)
    }
}

/// A scan that found no IPv4 row pins `first_ipv4_row` to the end.
pub proof fn lemma_first_ipv4_row_none(lines: Seq<Seq<char>>, from: int)
    requires
        forall|j: int| from <= j < lines.len() ==> !is_ipv4_row(lines[j]),
    ensures
        first_ipv4_row(lines, from) == lines.len(),
    decreases lines.len() - from,
{
    if 0 <= from < lines.len() {
        lemma_first_ipv4_row_none(lines, from + 1)
    }
}

/// A resource the create pipeline may leave behind, named by what
/// identifies it.
pub enum CreatedResource {
    VmDirectory { path: Seq<char> },
    DiskFile { path: Seq<char> },
    DefinedDomain,
}

/// The resources an action brings into existence, in order of creation.
pub open spec fn action_acquires(a: VmAction) -> Seq<CreatedResource> {
    match a {
        VmAction::CreateCowDisk { vm_dir, disk_path, .. } => seq![
            CreatedResource::VmDirectory { path: vm_dir@ },
            CreatedResource::DiskFile { path: disk_path@ },
        ],
        VmAction::DefineDomain { .. } => seq![CreatedResource::DefinedDomain],
        _ => Seq::empty(),
    }
}

/// The resources an action removes, in order of removal.
pub open spec fn action_releases(a: VmAction) -> Seq<CreatedResource> {
    match a {
        VmAction::DeleteDisk { disk_path } => seq![CreatedResource::DiskFile { path: disk_path@ }],
        VmAction::RemoveVmDir { vm_dir } => seq![CreatedResource::VmDirectory { path: vm_dir@ }],
        VmAction::UndefineDomain => seq![CreatedResource::DefinedDomain],
        _ => Seq::empty(),
    }
}

/// Everything the stages before stage `k` created, in order of creation.
pub open spec fn acquired_before(plan: Seq<CreateStage>, k: int) -> Seq<CreatedResource>
    decreases k,
{
    if k <= 0 {
        Seq::empty()
    } else {
        acquired_before(plan, k - 1) + action_acquires(plan[k - 1].action)
    }
}

/// The cleanup the application runs when stage `k` fails: the compensations
/// of the completed stages, latest first, each in its own order.
pub open spec fn rollback_actions(plan: Seq<CreateStage>, k: int) -> Seq<VmAction>
    decreases k,
{
    if k <= 0 {
        Seq::empty()
    } else {
        plan[k - 1].compensation@ + rollback_actions(plan, k - 1)
    }
}

/// Everything a sequence of actions removes, in order.
pub open spec fn released_by(acts: Seq<VmAction>) -> Seq<CreatedResource>
    decreases acts.len(),
{
    if acts.len() == 0 {
        Seq::empty()
    } else {
        action_releases(acts[0]) + released_by(acts.skip(1))
    }
}

/// Rollback completeness: when any stage of the create pipeline fails, the
/// rollback releases exactly the resources the completed stages created —
/// no disk and no directory is left behind, no domain stays defined — and
/// releases them in reverse order of their creation. In particular a
/// failure of the first stage (a missing base image) performs no cleanup
/// because nothing was created.
pub proof fn lemma_create_rollback_complete(
    plan: Seq<CreateStage>,
    config: AppConfig,
    req: VmSpec,
    k: int,
)
    requires
        is_create_plan(plan, config, req),
        0 <= k < plan.len(),
    ensures
        released_by(rollback_actions(plan, k)) == acquired_before(plan, k).reverse(),
        k == 0 ==> rollback_actions(plan, k) == Seq::<VmAction>::empty(),
{
    let dir = spec_vm_disk_dir(config.storage_pool_path@, req.name@);
    let disk = spec_root_disk_path(config.storage_pool_path@, req.name@);
    let undo_disk = seq![
        CreatedResource::DiskFile { path: disk },
        CreatedResource::VmDirectory { path: dir },
    ];
    let made_disk = seq![
        CreatedResource::VmDirectory { path: dir },
        CreatedResource::DiskFile { path: disk },
    ];
    assert(action_acquires(plan[0].action) =~= Seq::<CreatedResource>::empty());
    assert(action_acquires(plan[1].action) =~= made_disk);
    assert(action_acquires(plan[2].action) =~= Seq::<CreatedResource>::empty());
    assert(action_acquires(plan[3].action) =~= seq![CreatedResource::DefinedDomain]);

    assert(rollback_actions(plan, 0) == Seq::<VmAction>::empty());
    assert(rollback_actions(plan, 1) == plan[0].compensation@ + rollback_actions(plan, 0));
    assert(rollback_actions(plan, 1) =~= Seq::<VmAction>::empty());
    assert(rollback_actions(plan, 2) == plan[1].compensation@ + rollback_actions(plan, 1));
    assert(rollback_actions(plan, 2) =~= plan[1].compensation@);
    assert(rollback_actions(plan, 3) == plan[2].compensation@ + rollback_actions(plan, 2));
    assert(rollback_actions(plan, 3) =~= plan[1].compensation@);
    assert(rollback_actions(plan, 4) == plan[3].compensation@ + rollback_actions(plan, 3));

    assert(acquired_before(plan, 0) == Seq::<CreatedResource>::empty());
    assert(acquired_before(plan, 1) == acquired_before(plan, 0) + action_acquires(plan[0].action));
    assert(acquired_before(plan, 1) =~= Seq::<CreatedResource>::empty());
    assert(acquired_before(plan, 2) == acquired_before(plan, 1) + action_acquires(plan[1].action));
    assert(acquired_before(plan, 2) =~= made_disk);
    assert(acquired_before(plan, 3) == acquired_before(plan, 2) + action_acquires(plan[2].action));
    assert(acquired_before(plan, 3) =~= made_disk);
    assert(acquired_before(plan, 4) == acquired_before(plan, 3) + action_acquires(plan[3].action));
    assert(acquired_before(plan, 4) =~= made_disk + seq![CreatedResource::DefinedDomain]);

    if k == 0 {
        assert(released_by(rollback_actions(plan, 0)) == Seq::<CreatedResource>::empty());
        assert(acquired_before(plan, 0).reverse() =~= Seq::<CreatedResource>::empty());
    } else if k == 1 {
        assert(released_by(rollback_actions(plan, 1)) == Seq::<CreatedResource>::empty());
        assert(acquired_before(plan, 1).reverse() =~= Seq::<CreatedResource>::empty());
    } else if k == 2 || k == 3 {
        lemma_released_pair(plan[1].compensation@);
        assert(released_by(plan[1].compensation@) =~= undo_disk);
        assert(acquired_before(plan, k).reverse() =~= undo_disk);
    } else {
        let undo = rollback_actions(plan, 4);
        assert(undo =~= seq![
            plan[3].compensation@[0],
            plan[1].compensation@[0],
            plan[1].compensation@[1],
        ]);
        lemma_released_triple(undo);
        assert(released_by(undo) =~= seq![
            CreatedResource::DefinedDomain,
            CreatedResource::DiskFile { path: disk },
            CreatedResource::VmDirectory { path: dir },
        ]);
        assert(acquired_before(plan, 4).reverse() =~= seq![
            CreatedResource::DefinedDomain,
            CreatedResource::DiskFile { path: disk },
            CreatedResource::VmDirectory { path: dir },
        ]);
    }
}

/// Releasing a two-action sequence releases each action's resources in
/// order.
proof fn lemma_released_pair(acts: Seq<VmAction>)
    requires
        acts.len() == 2,
    ensures
        released_by(acts) == action_releases(acts[0]) + action_releases(acts[1]),
{
    let s1 = acts.skip(1);
    let s2 = s1.skip(1);
    assert(s2 =~= Seq::<VmAction>::empty());
    assert(s1[0] == acts[1]);
    assert(released_by(s2) == Seq::<CreatedResource>::empty());
    assert(released_by(s1) == action_releases(s1[0]) + released_by(s2));
    assert(released_by(acts) == action_releases(acts[0]) + released_by(s1));
    assert(released_by(acts) =~= action_releases(acts[0]) + action_releases(acts[1]));
}

/// Releasing a three-action sequence releases each action's resources in
/// order.
proof fn lemma_released_triple(acts: Seq<VmAction>)
    requires
        acts.len() == 3,
    ensures
        released_by(acts) == action_releases(acts[0]) + action_releases(acts[1])
            + action_releases(acts[2]),
{
    let s1 = acts.skip(1);
    assert(s1.len() == 2 && s1[0] == acts[1] && s1[1] == acts[2]);
    lemma_released_pair(s1);
    assert(released_by(acts) == action_releases(acts[0]) + released_by(s1));
    assert(released_by(acts) =~= action_releases(acts[0]) + action_releases(acts[1])
        + action_releases(acts[2]));
}

/// The reports of the probes that succeeded, in order.
pub open spec fn present_infos(probed: Seq<Option<VmInfo>>) -> Seq<VmInfo>
    decreases probed.len(),
{
    if probed.len() == 0 {
        Seq::empty()
    } else {
        (match probed[0] {
            Some(info) => seq![info],
            None => Seq::empty(),
        }) + present_infos(probed.skip(1))
    }
}

/// One failed probe is skipped, never fatal: every report that could be
/// computed appears in the listing, and the listing never grows beyond the
/// probes.
pub proof fn lemma_list_vms_skips_only_failures(probed: Seq<Option<VmInfo>>, i: int)
    requires
        0 <= i < probed.len(),
        probed[i] is Some,
    ensures
        present_infos(probed).contains(probed[i]->0),
        present_infos(probed).len() <= probed.len(),
    decreases probed.len(),
{
    lemma_present_infos_len(probed);
    if i == 0 {
        assert(present_infos(probed)[0] == probed[0]->0);
    } else {
        lemma_list_vms_skips_only_failures(probed.skip(1), i - 1);
        let j = choose|j: int|
            0 <= j < present_infos(probed.skip(1)).len() && present_infos(probed.skip(1))[j]
                == probed.skip(1)[i - 1]->0;
        match probed[0] {
            Some(info) => {
                assert(present_infos(probed)[j + 1] == probed[i]->0);
            },
            None => {
                assert(present_infos(probed)[j] == probed[i]->0);
            },
        }
    }
}

/// A listing never holds more entries than there were probes.
pub proof fn lemma_present_infos_len(probed: Seq<Option<VmInfo>>)
    ensures
        present_infos(probed).len() <= probed.len(),
    decreases probed.len(),
{
    if probed.len() > 0 {
        lemma_present_infos_len(probed.skip(1));
    }
}

/// Clone an optional string.
fn clone_opt(o: &Option<String>) -> (r: Option<String>)
    ensures
        r == *o,
{
    match o {
        Some(s) => Some(s.clone()),
        None => None,
    }
}

} // verus!
