//! Response shaping for the HTTP surface.
//!
//! The routing layer itself is outside the library; these functions pin down
//! what each endpoint answers: the status code, the body on success, and the
//! error body on failure. Lookup misses answer not-found; every other
//! manager failure answers as an internal error.

use vstd::prelude::*;

use crate::config::AppConfig;
use crate::error::VmError;
use crate::manager::VmInfo;

verus! {

/// The version the service reports.
pub open spec fn spec_version() -> Seq<char> {
    "0.1.0"@
}

/// The health payload.
#[derive(Debug)]
pub struct HealthResponse {
    pub status: String,
    pub version: String,
}

/// The configuration snapshot payload.
#[derive(Debug)]
pub struct SystemStatusResponse {
    pub status: String,
    pub version: String,
    pub kdevops_root: String,
    pub libvirt_uri: String,
    pub storage_pool_path: String,
    pub base_images_dir: String,
    pub network_bridge: String,
}

/// The request body for creating a VM.
#[derive(Debug, Clone)]
pub struct CreateVmRequest {
    pub name: String,
    pub vcpus: u32,
    pub memory_mb: u64,
    pub base_image: String,
    pub root_disk_gb: u64,
    pub ssh_user: Option<String>,
    pub ssh_public_key: Option<String>,
}

/// The body answered for a created VM.
#[derive(Debug, Clone)]
pub struct CreateVmResponse {
    pub id: String,
    pub name: String,
    pub state: String,
}

/// The body answered for one VM.
#[derive(Debug, Clone)]
pub struct VmResponse {
    pub id: String,
    pub name: String,
    pub state: String,
    pub vcpus: u32,
    pub memory_mb: u64,
    pub ip_address: Option<String>,
}

/// The body answered for the VM listing.
#[derive(Debug, Clone)]
pub struct ListVmsResponse {
    pub vms: Vec<VmResponse>,
}

/// One base image in the image listing.
#[derive(Debug, Clone)]
pub struct ImageInfo {
    pub name: String,
}

/// The body answered for the image listing.
#[derive(Debug, Clone)]
pub struct ListImagesResponse {
    pub images: Vec<ImageInfo>,
}

/// A VM as the HTTP surface reports it.
pub open spec fn spec_vm_response(info: VmInfo) -> VmResponse {
    VmResponse {
        id: info.id,
        name: info.name,
        state: info.state,
        vcpus: info.vcpus,
        memory_mb: info.memory_mb,
        ip_address: info.ip_address,
    }
}

/// Shape one VM report for the HTTP surface.
pub fn vm_response_of(info: VmInfo) -> (r: VmResponse)
    ensures
        r == spec_vm_response(info),
{
    VmResponse {
        id: info.id,
        name: info.name,
        state: info.state,
        vcpus: info.vcpus,
        memory_mb: info.memory_mb,
        ip_address: info.ip_address,
    }
}

/// The health endpoint always answers OK with a healthy status and the
/// service version.
pub fn health_response() -> (r: (u16, HealthResponse))
    ensures
        r.0 == 200,
        r.1.status@ == "healthy"@,
        r.1.version@ == spec_version(),
{
    (200, HealthResponse { status: String::from_str("healthy"), version: String::from_str("0.1.0") })
}

/// The status endpoint answers OK with the configuration snapshot.
pub fn system_status_response(config: &AppConfig) -> (r: (u16, SystemStatusResponse))
    ensures
        r.0 == 200,
        r.1.status@ == "operational"@,
        r.1.version@ == spec_version(),
        r.1.kdevops_root == config.kdevops_root,
        r.1.libvirt_uri == config.libvirt_uri,
        r.1.storage_pool_path == config.storage_pool_path,
        r.1.base_images_dir == config.base_images_dir,
        r.1.network_bridge == config.network_bridge,
{
    (
        200,
        SystemStatusResponse {
            status: String::from_str("operational"),
            version: String::from_str("0.1.0"),
            kdevops_root: config.kdevops_root.clone(),
            libvirt_uri: config.libvirt_uri.clone(),
            storage_pool_path: config.storage_pool_path.clone(),
            base_images_dir: config.base_images_dir.clone(),
            network_bridge: config.network_bridge.clone(),
        },
    )
}

/// A created VM answers created (201) with its new identifier and the
/// `creating` state; a failed creation answers as an internal error whose
/// body names the failure.
pub fn create_vm_reply(name: String, outcome: Result<String, VmError>) -> (r: (
    u16,
    Result<CreateVmResponse, String>,
))
    ensures
        outcome is Ok ==> r.0 == 201 && r.1 is Ok && r.1->Ok_0.id == outcome->Ok_0 && r.1->Ok_0.name
            == name && r.1->Ok_0.state@ == "creating"@,
        outcome is Err ==> r.0 == 500 && r.1 is Err && r.1->Err_0@ == "Failed to create VM: "@
            + outcome->Err_0.spec_message(),
{
    match outcome {
        Ok(id) => (
            201,
            Ok(CreateVmResponse { id, name, state: String::from_str("creating") }),
        ),
        Err(e) => {
            let mut msg = String::from_str("Failed to create VM: ");
            msg.append(e.message().as_str());
            (500, Err(msg))
        },
    }
}

/// A found VM answers OK with its report; a lookup miss, and only a lookup
/// miss, answers not-found; every other failure answers as an internal
/// error.
pub fn get_vm_reply(outcome: Result<VmInfo, VmError>) -> (r: (u16, Result<VmResponse, String>))
    ensures
        outcome is Ok ==> r.0 == 200 && r.1 is Ok && r.1->Ok_0 == spec_vm_response(outcome->Ok_0),
        outcome is Err && outcome->Err_0 is NotFound ==> r.0 == 404 && r.1 is Err && r.1->Err_0@
            == outcome->Err_0.spec_message(),
        outcome is Err && !(outcome->Err_0 is NotFound) ==> r.0 == 500 && r.1 is Err
            && r.1->Err_0@ == "Failed to get VM: "@ + outcome->Err_0.spec_message(),
{
    match outcome {
        Ok(info) => (200, Ok(vm_response_of(info))),
        Err(e) => {
            if e.is_not_found() {
                (404, Err(e.message()))
            } else {
                let mut msg = String::from_str("Failed to get VM: ");
                msg.append(e.message().as_str());
                (500, Err(msg))
            }
        },
    }
}

/// A listing answers OK with every report in order; a failure answers as an
/// internal error.
pub fn list_vms_reply(outcome: Result<Vec<VmInfo>, VmError>) -> (r: (
    u16,
    Result<ListVmsResponse, String>,
))
    ensures
        outcome is Ok ==> r.0 == 200 && r.1 is Ok && r.1->Ok_0.vms@.len() == outcome->Ok_0@.len()
            && forall|k: int|
            0 <= k < outcome->Ok_0@.len() ==> r.1->Ok_0.vms@[k] == spec_vm_response(
                outcome->Ok_0@[k],
            ),
        outcome is Err ==> r.0 == 500 && r.1 is Err && r.1->Err_0@ == "Failed to list VMs: "@
            + outcome->Err_0.spec_message(),
{
    match outcome {
        Ok(infos) => {
            let ghost all = infos@;
            let mut infos = infos;
            let mut vms: Vec<VmResponse> = Vec::new();
            while infos.len() > 0
                invariant
                    vms@.len() + infos@.len() == all.len(),
                    forall|k: int| 0 <= k < vms@.len() ==> vms@[k] == spec_vm_response(all[k]),
                    forall|k: int| 0 <= k < infos@.len() ==> infos@[k] == all[vms@.len() + k],
                decreases infos.len(),
            {
                let ghost before = infos@;
                let info = infos.remove(0);
                proof {
                    assert(before.remove(0) =~= before.skip(1));
                }
                vms.push(vm_response_of(info));
            }
            (200, Ok(ListVmsResponse { vms }))
        },
        Err(e) => {
            let mut msg = String::from_str("Failed to list VMs: ");
            msg.append(e.message().as_str());
            (500, Err(msg))
        },
    }
}

/// A started VM answers OK with a `started` status; a failure answers as an
/// internal error.
pub fn start_vm_reply(outcome: Result<(), VmError>) -> (r: (u16, Result<String, String>))
    ensures
        outcome is Ok ==> r.0 == 200 && r.1 is Ok && r.1->Ok_0@ == "started"@,
        outcome is Err ==> r.0 == 500 && r.1 is Err && r.1->Err_0@ == "Failed to start VM: "@
            + outcome->Err_0.spec_message(),
{
    match outcome {
        Ok(_) => (200, Ok(String::from_str("started"))),
        Err(e) => {
            let mut msg = String::from_str("Failed to start VM: ");
            msg.append(e.message().as_str());
            (500, Err(msg))
        },
    }
}

/// A stopped VM answers OK with a `stopped` status; a failure answers as an
/// internal error.
pub fn stop_vm_reply(outcome: Result<(), VmError>) -> (r: (u16, Result<String, String>))
    ensures
        outcome is Ok ==> r.0 == 200 && r.1 is Ok && r.1->Ok_0@ == "stopped"@,
        outcome is Err ==> r.0 == 500 && r.1 is Err && r.1->Err_0@ == "Failed to stop VM: "@
            + outcome->Err_0.spec_message(),
{
    match outcome {
        Ok(_) => (200, Ok(String::from_str("stopped"))),
        Err(e) => {
            let mut msg = String::from_str("Failed to stop VM: ");
            msg.append(e.message().as_str());
            (500, Err(msg))
        },
    }
}

/// A destroyed VM answers OK with a `destroyed` status; a failure answers
/// as an internal error.
pub fn destroy_vm_reply(outcome: Result<(), VmError>) -> (r: (u16, Result<String, String>))
    ensures
        outcome is Ok ==> r.0 == 200 && r.1 is Ok && r.1->Ok_0@ == "destroyed"@,
        outcome is Err ==> r.0 == 500 && r.1 is Err && r.1->Err_0@ == "Failed to destroy VM: "@
            + outcome->Err_0.spec_message(),
{
    match outcome {
        Ok(_) => (200, Ok(String::from_str("destroyed"))),
        Err(e) => {
            let mut msg = String::from_str("Failed to destroy VM: ");
            msg.append(e.message().as_str());
            (500, Err(msg))
        },
    }
}

/// An image listing answers OK with one entry per image name, in order; a
/// failure answers as an internal error.
pub fn list_images_reply(outcome: Result<Vec<String>, VmError>) -> (r: (
    u16,
    Result<ListImagesResponse, String>,
))
    ensures
        outcome is Ok ==> r.0 == 200 && r.1 is Ok && r.1->Ok_0.images@.len()
            == outcome->Ok_0@.len() && forall|k: int|
            0 <= k < outcome->Ok_0@.len() ==> r.1->Ok_0.images@[k].name == outcome->Ok_0@[k],
        outcome is Err ==> r.0 == 500 && r.1 is Err && r.1->Err_0@ == "Failed to list images: "@
            + outcome->Err_0.spec_message(),
{
    match outcome {
        Ok(names) => {
            let ghost all = names@;
            let mut names = names;
            let mut images: Vec<ImageInfo> = Vec::new();
            while names.len() > 0
                invariant
                    images@.len() + names@.len() == all.len(),
                    forall|k: int| 0 <= k < images@.len() ==> images@[k].name == all[k],
                    forall|k: int| 0 <= k < names@.len() ==> names@[k] == all[images@.len() + k],
                decreases names.len(),
            {
                let ghost before = names@;
                let name = names.remove(0);
                proof {
                    assert(before.remove(0) =~= before.skip(1));
                }
                images.push(ImageInfo { name });
            }
            (200, Ok(ListImagesResponse { images }))
        },
        Err(e) => {
            let mut msg = String::from_str("Failed to list images: ");
            msg.append(e.message().as_str());
            (500, Err(msg))
        },
    }
}

} // verus!
