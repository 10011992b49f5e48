//! Application configuration and its resolution rules.
//!
//! The application reads the environment and the settings file; this module
//! holds the pure part: which source wins for each setting, which defaults
//! apply, and which settings are mandatory.

use vstd::prelude::*;

verus! {

/// HTTP server settings.
#[derive(Debug, Clone)]
pub struct ServerConfig {
    pub bind_address: String,
    pub workers: usize,
}

impl Default for ServerConfig {
    /// The server binds locally with four workers unless configured
    /// otherwise.
    fn default() -> (s: Self)
        ensures
            s.bind_address@ == "127.0.0.1:8765"@,
            s.workers == 4,
    {
        ServerConfig { bind_address: String::from_str("127.0.0.1:8765"), workers: 4 }
    }
}

/// Default disk parameters recorded in the configuration snapshot.
#[derive(Debug, Clone)]
pub struct VmDefaults {
    pub disk_format: String,
    pub disk_driver: String,
}

impl Default for VmDefaults {
    fn default() -> (s: Self)
        ensures
            s.disk_format@ == "raw"@,
            s.disk_driver@ == "virtio"@,
    {
        VmDefaults { disk_format: String::from_str("raw"), disk_driver: String::from_str("virtio") }
    }
}

/// The settings-file values the manager needs, after resolution.
#[derive(Debug, Clone)]
pub struct KdevopsConfig {
    pub libvirt_uri: String,
    pub storage_pool_path: String,
    pub base_images_dir: String,
    pub network_bridge: Option<String>,
    pub rcloud_server_bind: Option<String>,
    pub rcloud_workers: Option<usize>,
    pub ssh_user: Option<String>,
    pub ssh_pubkey_file: Option<String>,
}

/// What the environment and the settings file offered for each setting,
/// before resolution. The application fills this in; resolution itself is
/// pure.
pub struct KdevopsRaw {
    pub env_libvirt_uri: Option<String>,
    pub yaml_libvirt_uri: Option<String>,
    pub env_storage_pool: Option<String>,
    pub yaml_storage_pool: Option<String>,
    pub yaml_storage_pool_alt: Option<String>,
    pub env_base_images: Option<String>,
    pub yaml_base_images: Option<String>,
    pub env_network_bridge: Option<String>,
    pub yaml_network_bridge: Option<String>,
    pub env_server_bind: Option<String>,
    pub yaml_server_bind: Option<String>,
    pub env_workers: Option<usize>,
    pub yaml_workers: Option<usize>,
    pub yaml_ssh_user: Option<String>,
    pub yaml_ssh_pubkey_file: Option<String>,
}

/// The view of an optional setting resolved against a fallback.
pub open spec fn or_view(first: Option<String>, fallback: Seq<char>) -> Seq<char> {
    match first {
        Some(s) => s@,
        None => fallback,
    }
}

impl KdevopsConfig {
    /// Resolve the settings: an environment value beats the settings file,
    /// the settings file beats the built-in default. The storage pool path
    /// and the base-images directory are mandatory; everything else has a
    /// default or stays unset.
    pub fn resolve(raw: KdevopsRaw) -> (r: Result<KdevopsConfig, String>)
        ensures
            r is Err <==> (raw.env_storage_pool is None && raw.yaml_storage_pool is None
                && raw.yaml_storage_pool_alt is None) || (raw.env_base_images is None
                && raw.yaml_base_images is None),
            (raw.env_storage_pool is None && raw.yaml_storage_pool is None
                && raw.yaml_storage_pool_alt is None) ==> r is Err && r->Err_0@
                == "Missing storage pool path. Set RCLOUD_STORAGE_POOL_PATH env var or kdevops_storage_pool_path in extra_vars.yaml"@,
            (!(raw.env_storage_pool is None && raw.yaml_storage_pool is None
                && raw.yaml_storage_pool_alt is None) && raw.env_base_images is None
                && raw.yaml_base_images is None) ==> r is Err && r->Err_0@
                == "Missing base images directory. Set RCLOUD_BASE_IMAGES_DIR env var or guestfs_base_image_dir in extra_vars.yaml"@,
            r is Ok ==> {
                let c = r->Ok_0;
                c.storage_pool_path@ == or_view(
                    raw.env_storage_pool,
                    or_view(raw.yaml_storage_pool, or_view(raw.yaml_storage_pool_alt, Seq::empty())),
                ) && c.base_images_dir@ == or_view(
                    raw.env_base_images,
                    or_view(raw.yaml_base_images, Seq::empty()),
                ) && c.libvirt_uri@ == or_view(
                    raw.env_libvirt_uri,
                    or_view(raw.yaml_libvirt_uri, "qemu:///system"@),
                ) && c.network_bridge is Some && c.network_bridge->0@ == or_view(
                    raw.env_network_bridge,
                    or_view(raw.yaml_network_bridge, "virbr0"@),
                ) && c.rcloud_server_bind == (if raw.env_server_bind is Some {
                    raw.env_server_bind
                } else {
                    raw.yaml_server_bind
                }) && c.rcloud_workers == (if raw.env_workers is Some {
                    raw.env_workers
                } else {
                    raw.yaml_workers
                }) && c.ssh_user == raw.yaml_ssh_user && c.ssh_pubkey_file
                    == raw.yaml_ssh_pubkey_file
            },
    {
        let storage_pool_path = match raw.env_storage_pool {
            Some(s) => s,
            None => match raw.yaml_storage_pool {
                Some(s) => s,
                None => match raw.yaml_storage_pool_alt {
                    Some(s) => s,
                    None => {
                        return Err(
                            String::from_str(
                                "Missing storage pool path. Set RCLOUD_STORAGE_POOL_PATH env var or kdevops_storage_pool_path in extra_vars.yaml",
                            ),
                        );
                    },
                },
            },
        };
        let base_images_dir = match raw.env_base_images {
            Some(s) => s,
            None => match raw.yaml_base_images {
                Some(s) => s,
                None => {
                    return Err(
                        String::from_str(
                            "Missing base images directory. Set RCLOUD_BASE_IMAGES_DIR env var or guestfs_base_image_dir in extra_vars.yaml",
                        ),
                    );
                },
            },
        };
        let libvirt_uri = match raw.env_libvirt_uri {
            Some(s) => s,
            None => match raw.yaml_libvirt_uri {
                Some(s) => s,
                None => String::from_str("qemu:///system"),
            },
        };
        let network_bridge = match raw.env_network_bridge {
            Some(s) => Some(s),
            None => match raw.yaml_network_bridge {
                Some(s) => Some(s),
                None => Some(String::from_str("virbr0")),
            },
        };
        let rcloud_server_bind = match raw.env_server_bind {
            Some(s) => Some(s),
            None => raw.yaml_server_bind,
        };
        let rcloud_workers = match raw.env_workers {
            Some(w) => Some(w),
            None => raw.yaml_workers,
        };
        Ok(
            KdevopsConfig {
                libvirt_uri,
                storage_pool_path,
                base_images_dir,
                network_bridge,
                rcloud_server_bind,
                rcloud_workers,
                ssh_user: raw.yaml_ssh_user,
                ssh_pubkey_file: raw.yaml_ssh_pubkey_file,
            },
        )
    }
}

/// The full application configuration.
#[derive(Debug, Clone)]
pub struct AppConfig {
    pub server: ServerConfig,
    pub kdevops_root: String,
    pub libvirt_uri: String,
    pub storage_pool_path: String,
    pub base_images_dir: String,
    pub network_bridge: String,
    pub ssh_user: Option<String>,
    pub ssh_pubkey_file: Option<String>,
    pub vm_defaults: VmDefaults,
}

impl AppConfig {
    /// Assemble the application configuration from resolved settings: the
    /// server settings fall back to their defaults and the network bridge
    /// falls back to the hypervisor's default network.
    pub fn from_kdevops(kdevops_root: String, k: KdevopsConfig) -> (c: AppConfig)
        ensures
            c.kdevops_root == kdevops_root,
            c.libvirt_uri == k.libvirt_uri,
            c.storage_pool_path == k.storage_pool_path,
            c.base_images_dir == k.base_images_dir,
            c.network_bridge@ == or_view(k.network_bridge, "default"@),
            c.ssh_user == k.ssh_user,
            c.ssh_pubkey_file == k.ssh_pubkey_file,
            c.server.bind_address@ == or_view(k.rcloud_server_bind, "127.0.0.1:8765"@),
            c.server.workers == (match k.rcloud_workers {
                Some(w) => w,
                None => 4usize,
            }),
            c.vm_defaults.disk_format@ == "raw"@,
            c.vm_defaults.disk_driver@ == "virtio"@,
    {
        let bind_address = match k.rcloud_server_bind {
            Some(s) => s,
            None => ServerConfig::default().bind_address,
        };
        let workers = match k.rcloud_workers {
            Some(w) => w,
            None => ServerConfig::default().workers,
        };
        let network_bridge = match k.network_bridge {
            Some(s) => s,
            None => String::from_str("default"),
        };
        AppConfig {
            server: ServerConfig { bind_address, workers },
            kdevops_root,
            libvirt_uri: k.libvirt_uri,
            storage_pool_path: k.storage_pool_path,
            base_images_dir: k.base_images_dir,
            network_bridge,
            ssh_user: k.ssh_user,
            ssh_pubkey_file: k.ssh_pubkey_file,
            vm_defaults: VmDefaults::default(),
        }
    }

    /// The path of the descriptor template inside the kdevops tree.
    pub fn xml_template_path(&self) -> (r: String)
        ensures
            r@ == self.kdevops_root@ + "/playbooks/roles/gen_nodes/templates/guestfs_q35.j2.xml"@,
    {
        let mut s = self.kdevops_root.clone();
        s.append("/playbooks/roles/gen_nodes/templates/guestfs_q35.j2.xml");
        s
    }
}

} // verus!
